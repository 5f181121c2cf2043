# wallpaper_fetch

Fetches random game wallpapers from a listing site and saves them.

- `src/` is the verified library. It holds the rules the program follows:
  page addresses and CSS selectors (`site`), what is read out of a page
  (`scrape`, `site`), the random choices (`random`, seeded per day by
  `clock`), the list of collected pictures with its black list and
  duplicate rule (`links`), file names (`download`), progress figures
  (`progress`), and the run's settings (`config`). `text` and `decimal`
  hold the string helpers these rest on.
- `app/main.rs` performs the network requests, the parallel tasks and the
  file writes that the library's decisions call for, and runs each task's
  search loop, which stops when `Offer::ends_search` says so.
- `tests/` runs the library on concrete pages and values.
