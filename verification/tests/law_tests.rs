use omicron_crawler::linkedin::api::client::cookie_pieces;
use omicron_crawler::linkedin::profiles::Interval;
use omicron_crawler::linkedin::rate_limits::RateLimiter;
use omicron_crawler::linkedin::web_driver::linkedin::ResultsPaging;
use omicron_crawler::linkedin::web_driver::sales::PERIOD_DELIMITER;

#[test]
fn cookie_pieces_join_back_to_the_stored_text() {
    for stored in ["JSESSIONID=\"ajax:1\"; li_at=abc; lang=v=2&lang=en-us", "", ";;", "single"] {
        assert_eq!(cookie_pieces(stored).join(";"), stored);
    }
}

#[test]
fn interval_halves_join_back_around_the_delimiter() {
    for text in ["Jan 2020 – Present", "–", "2019 – 2020 – 2021"] {
        let iv = Interval::from_str(text, PERIOD_DELIMITER).ok().unwrap();
        assert_eq!(format!("{}{}{}", iv.start, PERIOD_DELIMITER, iv.end), text);
    }
}

#[test]
fn a_full_round_hands_out_every_wait() {
    // 3590 requests of 1 s leave 10 s: the waits 0 to 4, which add up to exactly 10.
    let mut limiter = RateLimiter::new(3590, 1000);
    for _ in 0..3 {
        let mut round: Vec<u64> = (0..5).map(|_| limiter.next().unwrap()).collect();
        round.sort();
        assert_eq!(round, vec![0, 1, 2, 3, 4]);
    }
}

#[test]
fn paging_visits_pages_two_through_the_count() {
    for page_count in [0u8, 1, 2, 5, 254] {
        let mut paging = ResultsPaging::start(page_count);
        let mut loaded = Vec::new();
        while let Some(page) = paging.next_page() {
            loaded.push(page);
            while paging.scans_left != 0 {
                paging.record_scan(false);
            }
        }
        let expected: Vec<u8> = (2..=page_count).collect();
        assert_eq!(loaded, expected);
        assert_eq!(paging.next_page(), None);
    }
}
