use wallpaper_fetch::clock::{day_seed, day_start_millis, today_seed, MILLIS_PER_DAY};
use wallpaper_fetch::config::{default_black_list, sorted_view_black_list, DEFAULT_RESOLUTION, IMAGE_FOLDER, PICTURES_TO_FETCH};
use wallpaper_fetch::decimal::{parse_usize, push_decimal};
use wallpaper_fetch::download::{
    describe_download, describe_download_at, DescribeError, downloaded_message, has_extension, image_file_name, indexed_image_file_name,
};
use wallpaper_fetch::links::{is_blacklisted, is_duplicate, LinkCollector, MissingPageUrl, Offer, ShortImgInfo};
use wallpaper_fetch::progress::{part_of_percentage, ProgressTracker};
use wallpaper_fetch::random::{pick_page, pick_picture_number, pick_position, task_rng, task_rngs};
use wallpaper_fetch::scrape::ScrapedElement;
use wallpaper_fetch::site::{
    candidate_at, candidate_from_elements, download_url, first_link_from_elements, header_title,
    header_title_from_elements, listing_page_url, plan_sorted_view_picks, wall_item_link, LinkError, locate_picture, page_count, page_count_from_elements,
    pick_candidate, pick_candidate_among, picture_link_selector, sorted_listing_page_url, title_key, total_pictures,
    wall_item_selector, Candidate, HeaderError, PageCountError, PickError,
};
use wallpaper_fetch::text::{concat_texts, contains, eq_ignore_ascii_case, remove_newlines, trim};

const LISTING: &str = r#"<html><body>
<div class="pagination_container"><div><ul><li>1</li><li>2</li><li>57</li><li>next</li></ul></div></div>
<div class="wall-list"><span>top</span><div><a class="caption" href="https://hdqwalls.com/wall/cyber">Cyberpunk City</a></div><div><a class="caption" href="https://hdqwalls.com/wall/pubg">PUBG Battle</a></div></div>
</body></html>"#;

const PICTURE_PAGE: &str = r#"<html><body>
<div class="page-header"><h1>
  Cyberpunk City
</h1></div>
<div class="container content zero_padding"><div class="col-lg-10 col-md-12 col-sm-12 col-xs-12"><div class="col-lg-8 col-md-8 col-sm-12 col-xs-12 zero"><a href="https://images.hdqwalls.com/download/cyber-2560x1440.jpg">Download</a></div></div></div>
</body></html>"#;

fn element(texts: &[&str], attribute: Option<&str>) -> ScrapedElement {
    ScrapedElement {
        texts: texts.iter().map(|t| t.to_string()).collect(),
        attribute: attribute.map(|a| a.to_string()),
    }
}

fn info(title: &str, url: &str) -> ShortImgInfo {
    ShortImgInfo { title: title.to_string(), page_url: url.to_string() }
}

#[test]
fn decimal_text_of_numbers() {
    let mut s = String::from("n=");
    push_decimal(&mut s, 0);
    assert_eq!(s, "n=0");
    let mut s = String::new();
    push_decimal(&mut s, 1440);
    assert_eq!(s, "1440");
    let mut s = String::new();
    push_decimal(&mut s, u64::MAX);
    assert_eq!(s, u64::MAX.to_string());
}

#[test]
fn parse_usize_accepts_what_std_accepts() {
    assert_eq!(parse_usize("57"), Some(57));
    assert_eq!(parse_usize("+57"), Some(57));
    assert_eq!(parse_usize("007"), Some(7));
    assert_eq!(parse_usize(&usize::MAX.to_string()), Some(usize::MAX));
    assert_eq!(parse_usize(""), None);
    assert_eq!(parse_usize("+"), None);
    assert_eq!(parse_usize("-1"), None);
    assert_eq!(parse_usize(" 57"), None);
    assert_eq!(parse_usize("5a"), None);
    assert_eq!(parse_usize("18446744073709551616"), None);
    for s in ["57", "+57", "007", "", "+", "-1", " 57", "5a", "18446744073709551616", "99999999999999999999"] {
        assert_eq!(parse_usize(s), s.parse::<usize>().ok(), "{s}");
    }
}

#[test]
fn decimal_text_reads_back() {
    for n in [0usize, 9, 10, 1440, 65535, usize::MAX] {
        let mut s = String::new();
        push_decimal(&mut s, n as u64);
        assert_eq!(parse_usize(&s), Some(n));
    }
}

#[test]
fn concat_and_contains() {
    let parts = vec!["Cyber".to_string(), "punk".to_string(), " City".to_string()];
    assert_eq!(concat_texts(&parts), "Cyberpunk City");
    assert_eq!(concat_texts(&vec![]), "");
    assert!(contains("cyberpunk city", "punk"));
    assert!(contains("cyberpunk city", ""));
    assert!(contains("", ""));
    assert!(!contains("", "a"));
    assert!(!contains("pub", "pubg"));
    assert!(contains("éclair pubg", "pubg"));
    assert!(!contains("cyberpunk", "Punk"));
}

#[test]
fn ascii_case_insensitive_equality() {
    assert!(eq_ignore_ascii_case("HTTPS://Hdqwalls.com/A", "https://hdqwalls.com/a"));
    assert!(!eq_ignore_ascii_case("https://hdqwalls.com/a", "https://hdqwalls.com/ab"));
    assert!(!eq_ignore_ascii_case("É", "é"));
    assert!(eq_ignore_ascii_case("", ""));
    for (a, b) in [("Abc", "aBC"), ("[", "{"), ("@", "`"), ("Zz", "zZ"), ("É", "é")] {
        assert_eq!(eq_ignore_ascii_case(a, b), a.eq_ignore_ascii_case(b), "{a} {b}");
    }
}

#[test]
fn equality_up_to_case_is_an_equivalence() {
    let (a, b, c) = ("Wall/ABC", "wall/abc", "WALL/abc");
    assert!(eq_ignore_ascii_case(a, a));
    assert!(eq_ignore_ascii_case(a, b) && eq_ignore_ascii_case(b, a));
    assert!(eq_ignore_ascii_case(a, b) && eq_ignore_ascii_case(b, c) && eq_ignore_ascii_case(a, c));
}

#[test]
fn newlines_and_white_space() {
    assert_eq!(remove_newlines("\n  Cyberpunk\nCity \n"), "  CyberpunkCity ");
    assert_eq!(remove_newlines(""), "");
    assert_eq!(trim("  Cyberpunk City \t"), "Cyberpunk City");
    assert_eq!(trim("\u{A0}x\u{3000}"), "x");
    assert_eq!(trim("   "), "");
    assert_eq!(trim("a b"), "a b");
    for s in ["  x ", "\n\t", "", "a\u{2028}", "\u{85}b"] {
        assert_eq!(trim(s), s.trim(), "{s:?}");
    }
}

#[test]
fn addresses_and_selectors() {
    assert_eq!(
        listing_page_url(DEFAULT_RESOLUTION, 7),
        "https://hdqwalls.com/category/games-wallpapers/2560x1440/page/7"
    );
    assert_eq!(
        listing_page_url("1920x1080", 0),
        "https://hdqwalls.com/category/games-wallpapers/1920x1080/page/0"
    );
    assert_eq!(
        sorted_listing_page_url("2560x1440", 12),
        "https://hdqwalls.com/category/games-wallpapers/2560x1440/sort/views/page/12"
    );
    assert_eq!(picture_link_selector(3), "div:nth-child(3) > a.caption");
    assert_eq!(wall_item_selector(15), "div.wall-resp:nth-child(15)");
}

#[test]
fn page_count_from_listing() {
    assert_eq!(page_count(LISTING), Ok(57));
    assert_eq!(page_count("<html><body><p>no pages</p></body></html>"), Err(PageCountError::NoPagination));
    let bad = LISTING.replace("<li>57</li>", "<li>many</li>");
    assert_eq!(page_count(&bad), Err(PageCountError::NotANumber));
}

#[test]
fn page_count_from_elements_cases() {
    assert_eq!(page_count_from_elements(&vec![]), Err(PageCountError::NoPagination));
    assert_eq!(page_count_from_elements(&vec![element(&["5", "7"], None)]), Ok(57));
    assert_eq!(page_count_from_elements(&vec![element(&["4294967297"], None)]), Ok(1));
    assert_eq!(page_count_from_elements(&vec![element(&["7\n"], None)]), Err(PageCountError::NotANumber));
    assert_eq!(
        page_count_from_elements(&vec![element(&["3"], None), element(&["9"], None)]),
        Ok(3)
    );
}

#[test]
fn candidates_from_listing() {
    let first = candidate_at(LISTING, 2).unwrap();
    assert_eq!(first.title, "cyberpunk city");
    assert_eq!(first.page_url.as_deref(), Some("https://hdqwalls.com/wall/cyber"));
    let second = candidate_at(LISTING, 3).unwrap();
    assert_eq!(second.title, "pubg battle");
    assert!(matches!(candidate_at(LISTING, 9), Err(PickError::NoPictureAtPosition)));

    let from = candidate_from_elements(&vec![element(&["Ab", "C"], Some("u"))]).unwrap();
    assert_eq!(from.title, "abc");
    assert_eq!(from.page_url.as_deref(), Some("u"));
    let no_href = candidate_from_elements(&vec![element(&["T"], None)]).unwrap();
    assert_eq!(no_href.page_url, None);
    assert!(matches!(candidate_from_elements(&vec![]), Err(PickError::NoPictureAtPosition)));
}

#[test]
fn random_candidate_is_one_of_the_listed() {
    for stream in 0..20u64 {
        let mut rng = task_rng(1_700_000_000_000, stream);
        let c = pick_candidate(&mut rng, LISTING).unwrap();
        assert!(c.title == "cyberpunk city" || c.title == "pubg battle", "{}", c.title);
    }
    let mut rng = task_rng(3, 0);
    assert!(matches!(
        pick_candidate(&mut rng, "<html><body><a>nothing</a></body></html>"),
        Err(PickError::NoPictures)
    ));
}

#[test]
fn pick_among_given_links() {
    let links = vec![element(&["Cyberpunk City"], Some("a")), element(&["PUBG Battle"], Some("b"))];
    for stream in 0..10u64 {
        let mut rng = task_rng(5, stream);
        let c = pick_candidate_among(&mut rng, LISTING, &links).unwrap();
        assert!(c.title == "cyberpunk city" || c.title == "pubg battle");
    }
    let mut rng = task_rng(5, 0);
    assert!(matches!(pick_candidate_among(&mut rng, LISTING, &vec![]), Err(PickError::NoPictures)));
}

#[test]
fn fresh_generators_of_a_day_pick_the_same_first_page() {
    for stream in 0..5u64 {
        let a = pick_page(&mut task_rng(1_700_006_400_000, stream), 100);
        let b = pick_page(&mut task_rng(1_700_006_400_000, stream), 100);
        assert_eq!(a, b);
    }
}

#[test]
fn random_draws_stay_in_range() {
    let mut rng = task_rng(42, 0);
    for _ in 0..200 {
        assert!(pick_page(&mut rng, 5) <= 5);
        let p = pick_position(&mut rng, 3);
        assert!((2..5).contains(&p));
        assert!(pick_picture_number(7) < 7);
    }
    assert_eq!(pick_page(&mut rng, 0), 0);
    assert_eq!(pick_position(&mut rng, 1), 2);
    assert_eq!(task_rngs(9, 10).len(), 10);
    assert_eq!(task_rngs(9, 0).len(), 0);
    assert_eq!(task_rngs(9, -4).len(), 0);
}

#[test]
fn random_draws_vary() {
    let mut rng = task_rng(7, 0);
    let pages: std::collections::BTreeSet<u32> = (0..200).map(|_| pick_page(&mut rng, 5)).collect();
    assert!(pages.len() > 1);
    let positions: std::collections::BTreeSet<usize> = (0..200).map(|_| pick_position(&mut rng, 4)).collect();
    assert!(positions.len() > 1);
    let numbers: std::collections::BTreeSet<usize> = (0..200).map(|_| pick_picture_number(9)).collect();
    assert!(numbers.len() > 1);
}

#[test]
fn tasks_on_different_streams_draw_differently() {
    let mut rngs = task_rngs(1_700_006_400_000, 3);
    let draws: Vec<Vec<u32>> = rngs.iter_mut().map(|r| (0..20).map(|_| pick_page(r, 1_000_000)).collect()).collect();
    assert_ne!(draws[0], draws[1]);
    assert_ne!(draws[1], draws[2]);
    let mut again = task_rngs(1_700_006_400_000, 3);
    let redraw: Vec<u32> = (0..20).map(|_| pick_page(&mut again[1], 1_000_000)).collect();
    assert_eq!(redraw, draws[1]);
    let mut single = task_rng(1_700_006_400_000, 2);
    let single_draws: Vec<u32> = (0..20).map(|_| pick_page(&mut single, 1_000_000)).collect();
    assert_eq!(single_draws, draws[2]);
}

#[test]
fn task_generators_are_reproducible() {
    let mut a = task_rng(123, 4);
    let mut b = task_rng(123, 4);
    let xs: Vec<u32> = (0..10).map(|_| pick_page(&mut a, 1000)).collect();
    let ys: Vec<u32> = (0..10).map(|_| pick_page(&mut b, 1000)).collect();
    assert_eq!(xs, ys);
}

#[test]
fn download_address_and_file_names() {
    assert_eq!(
        download_url(PICTURE_PAGE).unwrap(),
        "https://images.hdqwalls.com/download/cyber-2560x1440.jpg"
    );
    assert_eq!(download_url(LISTING), Err(LinkError::NoMatch));
    assert_eq!(first_link_from_elements(&vec![element(&["Download"], None)]), Err(LinkError::MissingHref));
    assert_eq!(first_link_from_elements(&vec![]), Err(LinkError::NoMatch));

    let page = info("cyberpunk city", "https://hdqwalls.com/wall/cyber");
    let img = describe_download(&page, PICTURE_PAGE).unwrap();
    assert_eq!(img.title, "cyberpunk city");
    assert_eq!(img.page_url, "https://hdqwalls.com/wall/cyber");
    assert_eq!(img.download_url, "https://images.hdqwalls.com/download/cyber-2560x1440.jpg");
    assert!(img.download_date_millis > 1_600_000_000_000);
    assert!(matches!(describe_download(&page, LISTING), Err(DescribeError::Link(LinkError::NoMatch))));
    let stamped = describe_download_at(&page, PICTURE_PAGE, 1_700_000_000_123).unwrap();
    assert_eq!(stamped.download_date_millis, 1_700_000_000_123);
    assert_eq!(stamped.download_url, img.download_url);
    assert!(matches!(describe_download_at(&page, LISTING, 5), Err(LinkError::NoMatch)));

    assert!(has_extension("a.jpg"));
    assert!(has_extension("png"));
    assert!(!has_extension("jp"));
    assert!(!has_extension("x😀"));
    assert!(has_extension("abcé"));
    assert!(has_extension("éa.png"));
    assert_eq!(image_file_name("cyberpunk city", &img.download_url), "cyberpunk city.jpg");
    assert_eq!(image_file_name("x", "é.png"), "x.png");
    assert_eq!(indexed_image_file_name("Cyberpunk City", 37, "https://e.com/a.webp"), "Cyberpunk City_37.ebp");
    assert_eq!(downloaded_message("cyberpunk city"), "cyberpunk city downloaded");
}

#[test]
fn headings_and_title_keys() {
    assert_eq!(header_title(PICTURE_PAGE).unwrap(), "  Cyberpunk City");
    assert_eq!(header_title(LISTING), Err(HeaderError::NoHeader));
    assert_eq!(header_title_from_elements(&vec![element(&["A\nB", "\nC"], None)]).unwrap(), "ABC");
    assert_eq!(title_key("  PUBG Mobile  "), "pubg mobile");
    assert_eq!(title_key("ÉCLAIR"), "éclair");
}

#[test]
fn pictures_sorted_by_views() {
    assert_eq!(total_pictures(57), 912);
    assert_eq!(locate_picture(0), (0, 0));
    assert_eq!(locate_picture(37), (2, 5));
    assert_eq!(locate_picture(911), (56, 15));
    for n in 0..912 {
        let (page, index) = locate_picture(n);
        assert!(page < 57 && index < 16 && page * 16 + index == n);
    }
}

#[test]
fn black_lists() {
    let list = default_black_list();
    assert_eq!(list.len(), 11);
    assert_eq!(list[0], "pubg");
    assert_eq!(list[1], "solo leveling arise");
    assert_eq!(list[10], "fortnite");
    assert_eq!(sorted_view_black_list(), vec!["pubg", "playerunknown", "fifa", "nba", "football", "genshin", "fortnite"]);
    assert!(is_blacklisted("pubg battle", &list));
    assert!(is_blacklisted("solo leveling arise 4k", &list));
    assert!(!is_blacklisted("Solo Leveling Arise", &vec!["pubg".to_string()]));
    assert!(!is_blacklisted("cyberpunk city", &list));
    assert!(!is_blacklisted("anything", &vec![]));
    assert!(is_blacklisted("anything", &vec![String::new()]));
    assert_eq!(DEFAULT_RESOLUTION, "2560x1440");
    assert_eq!(IMAGE_FOLDER, "img");
    assert_eq!(PICTURES_TO_FETCH, 10);
}

#[test]
fn duplicates_ignore_ascii_case() {
    let links = vec![info("a", "https://x.com/A"), info("b", "https://x.com/b")];
    assert!(is_duplicate(&links, "https://x.com/a"));
    assert!(is_duplicate(&links, "HTTPS://X.COM/B"));
    assert!(!is_duplicate(&links, "https://x.com/c"));
    assert!(!is_duplicate(&vec![], "https://x.com/a"));
}

#[test]
fn collector_adds_each_page_once() {
    let mut c = LinkCollector::new(default_black_list());
    assert_eq!(c.len(), 0);
    assert_eq!(c.offer("cyberpunk city".into(), "https://x.com/Cyber".into()), Offer::Added);
    assert_eq!(c.offer("other title".into(), "https://x.com/cyber".into()), Offer::Duplicate);
    assert_eq!(c.offer("pubg battle".into(), "https://x.com/pubg".into()), Offer::Blacklisted);
    assert_eq!(c.offer("pubg battle".into(), "https://x.com/cyber".into()), Offer::Blacklisted);
    assert_eq!(c.offer("halo".into(), "https://x.com/halo".into()), Offer::Added);
    assert_eq!(c.len(), 2);
    let links = c.into_links();
    assert_eq!(links[0].title, "cyberpunk city");
    assert_eq!(links[1].page_url, "https://x.com/halo");
}

#[test]
fn only_an_added_page_ends_a_search() {
    assert!(Offer::Added.ends_search());
    assert!(!Offer::Duplicate.ends_search());
    assert!(!Offer::Blacklisted.ends_search());
}

#[test]
fn collector_takes_candidates() {
    let mut c = LinkCollector::new(default_black_list());
    let blacklisted_without_link = Candidate { title: "fifa 24".into(), page_url: None };
    assert_eq!(c.offer_candidate(blacklisted_without_link), Ok(Offer::Blacklisted));
    let without_link = Candidate { title: "halo".into(), page_url: None };
    assert_eq!(c.offer_candidate(without_link), Err(MissingPageUrl));
    let good = Candidate { title: "halo".into(), page_url: Some("https://x.com/h".into()) };
    assert_eq!(c.offer_candidate(good), Ok(Offer::Added));
    let again = Candidate { title: "halo 2".into(), page_url: Some("https://X.com/H".into()) };
    assert_eq!(c.offer_candidate(again), Ok(Offer::Duplicate));
    assert_eq!(c.links().len(), 1);
    c.check_invariant();
}

#[test]
fn progress_figures() {
    assert_eq!(part_of_percentage(10), 5);
    assert_eq!(part_of_percentage(3), 16);
    assert_eq!(part_of_percentage(100), 0);
    assert_eq!(part_of_percentage(-1), (50i32 / -1) as u8);
    assert_eq!(part_of_percentage(-7), (50i32 / -7) as u8);
    assert_eq!(part_of_percentage(-60), 0);
    assert_eq!(part_of_percentage(i32::MIN), (50 / i32::MIN) as u8);

    let mut p = ProgressTracker::new(10);
    let found: Vec<Option<u8>> = (0..10).map(|_| p.link_found()).collect();
    assert_eq!(found, (1..=10u8).map(|k| Some(k * 5)).collect::<Vec<_>>());
    assert!(found.iter().all(|f| f.unwrap() <= 50));
    p.restart();
    assert_eq!(p.image_saved(), Some((5, 55)));
    assert_eq!(p.image_saved(), Some((10, 60)));

    let mut q = ProgressTracker::new(1);
    assert_eq!(q.link_found(), Some(50));
    assert_eq!(q.link_found(), Some(100));
    for _ in 0..3 {
        q.link_found();
    }
    assert_eq!(q.link_found(), None);
}

#[test]
fn day_seeds() {
    assert_eq!(day_start_millis(0), 0);
    assert_eq!(day_start_millis(1_700_000_000_123), 1_699_920_000_000);
    assert_eq!(day_start_millis(-1), -(MILLIS_PER_DAY as i128));
    assert_eq!(day_start_millis(i64::MIN), i64::MIN as i128 - i64::MIN.rem_euclid(MILLIS_PER_DAY) as i128);
    assert_eq!(day_start_millis(MILLIS_PER_DAY), MILLIS_PER_DAY as i128);
    assert_eq!(day_seed(1_700_000_000_123), 1_699_920_000_000);
    assert_eq!(day_seed(-1), (-MILLIS_PER_DAY) as u64);
    let start_of_min = i64::MIN as i128 - i64::MIN.rem_euclid(MILLIS_PER_DAY) as i128;
    assert_eq!(day_seed(i64::MIN), start_of_min as u64);
    let s = today_seed().unwrap();
    assert_eq!(s % (MILLIS_PER_DAY as u64), 0);
    assert!(s > 1_600_000_000_000);
}

#[test]
fn one_seed_per_day() {
    let morning = 1_700_006_400_000 + 1;
    let evening = 1_700_006_400_000 + MILLIS_PER_DAY - 1;
    assert_eq!(day_seed(morning), day_seed(evening));
    assert_ne!(day_seed(evening), day_seed(evening + 1));
    assert!(day_seed(evening) < day_seed(evening + 1));
    assert!(day_seed(0) <= day_seed(morning));
    assert_eq!(day_start_millis(day_start_millis(evening) as i64), day_start_millis(evening));
}

#[test]
fn wall_items_and_sorted_picks() {
    let listing = r#"<html><body><div id="walls"><div class="wall-resp" href="https://hdqwalls.com/w/1">a</div><div class="wall-resp">b</div></div></body></html>"#;
    assert_eq!(wall_item_link(listing, 1).unwrap(), "https://hdqwalls.com/w/1");
    assert_eq!(wall_item_link(listing, 2), Err(LinkError::MissingHref));
    assert_eq!(wall_item_link(listing, 3), Err(LinkError::NoMatch));
    let picks = plan_sorted_view_picks(57, 10);
    assert_eq!(picks.len(), 10);
    for p in &picks {
        assert!(p.number < 912 && p.page == p.number / 16 && p.position == p.number % 16 && p.page < 57);
    }
    assert_eq!(plan_sorted_view_picks(1, 0).len(), 0);
    assert_eq!(plan_sorted_view_picks(0, 0).len(), 0);
}
