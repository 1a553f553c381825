use aof::auto_fetcher::{
    get_item_up, items_to_fetch, maybe_fetch_one_item, parse_date, phase_offset, project,
    weight_conv, AutoFetcherState, Date, FetcherJob, JobStep, UpdateProjection,
};
use aof::clock::Timestamp;
use aof::config::{
    get_cycle_sleep, get_fetcher_count, get_fetcher_item_wait, get_fetcher_wait, AutoFetcherConfig,
    Config,
};
use aof::data::sources::{SourceMetaItem, SourceMetadata};
use aof::data::Data;

const NOW: Timestamp = Timestamp { secs: 1_620_000_000, nanos: 0 };

fn ago(secs: i64) -> Option<Date> {
    Some(Date::Time(Timestamp { secs: NOW.secs - secs, nanos: 0 }))
}

#[test]
fn the_weight_falls_from_the_greatest_to_nothing() {
    assert_eq!(weight_conv(0, 86_400), 65_535);
    assert_eq!(weight_conv(1, 86_400), 65_535);
    assert_eq!(weight_conv(2, 86_400), 65_534);
    assert_eq!(weight_conv(600, 86_400), 65_080);
    assert_eq!(weight_conv(43_200, 86_400), 32_768);
    assert_eq!(weight_conv(86_399, 86_400), 0);
    assert_eq!(weight_conv(86_400, 86_400), 0);
    assert_eq!(weight_conv(1_000_000, 86_400), 0);
    assert_eq!(weight_conv(86_400, 604_800), 56_173);
    assert_eq!(weight_conv(777_600, 60_480_000), 64_693);
    assert_eq!(weight_conv(1, 7), 56_173);
    assert_eq!(weight_conv(699, 700), 93);
}

#[test]
fn a_source_that_updated_ten_minutes_ago_is_always_fetched() {
    let up = project(ago(600), NOW);
    assert_eq!(up, UpdateProjection::Hour(65_080));
    assert_eq!(up.update_probability(), 45_874_500);
    assert!(up.should_fetch(0));
    assert!(up.should_fetch(u64::MAX));
    assert!(up.should_fetch(u64::MAX / 2));
}

#[test]
fn a_source_that_updated_nine_days_ago_is_fetched_about_one_time_in_four() {
    let up = project(ago(9 * 86_400), NOW);
    assert_eq!(up, UpdateProjection::Week(64_693));
    assert_eq!(up.update_probability(), 11_880_500);
    let mut draw: u64 = 0x2545_f491_4f6c_dd1d;
    let mut fetched = 0;
    for _ in 0..1000 {
        draw ^= draw << 13;
        draw ^= draw >> 7;
        draw ^= draw << 17;
        if up.should_fetch(draw) {
            fetched += 1;
        }
    }
    assert!(fetched >= 50 && fetched <= 400, "fetched {} times", fetched);
    assert!(fetched >= 200 && fetched <= 320, "fetched {} times", fetched);
    // the draw stands for a fraction: below the probability the source is fetched
    let threshold: u128 = (11_880_500u128 << 53) / 45_874_500;
    assert!(up.should_fetch((threshold as u64) << 11));
    assert!(!up.should_fetch(((threshold as u64) + 1) << 11));
}

#[test]
fn projects_by_the_age_of_the_last_update() {
    assert_eq!(project(None, NOW), UpdateProjection::Day(0xffff));
    assert_eq!(UpdateProjection::default(), UpdateProjection::Day(0xffff));
    assert_eq!(project(ago(-5), NOW), UpdateProjection::Day(0xffff));
    assert_eq!(project(ago(0), NOW), UpdateProjection::Hour(65_535));
    assert_eq!(project(ago(86_399), NOW), UpdateProjection::Hour(0));
    assert_eq!(project(ago(86_400), NOW), UpdateProjection::Day(56_173));
    assert_eq!(project(ago(604_799), NOW), UpdateProjection::Day(0));
    assert_eq!(project(ago(604_800), NOW), UpdateProjection::Week(64_880));
    assert_eq!(project(ago(60_480_000), NOW), UpdateProjection::Week(0));
    assert_eq!(project(ago(70_000_000), NOW), UpdateProjection::Week(0));
    let today = NOW.day() as i32;
    assert_eq!(project(Some(Date::Date(today + 1)), NOW), UpdateProjection::Day(0xffff));
    assert_eq!(project(Some(Date::Date(today)), NOW), UpdateProjection::Day(65_535));
    assert_eq!(project(Some(Date::Date(today - 1)), NOW), UpdateProjection::Day(56_173));
    assert_eq!(project(Some(Date::Date(today - 6)), NOW), UpdateProjection::Day(9_362));
    assert_eq!(project(Some(Date::Date(today - 7)), NOW), UpdateProjection::Week(64_880));
    assert_eq!(project(Some(Date::Date(today - 700)), NOW), UpdateProjection::Week(0));
}

#[test]
fn the_probability_has_a_floor() {
    assert_eq!(UpdateProjection::Hour(0).update_probability(), 45_874_500);
    assert_eq!(UpdateProjection::Day(0).update_probability(), 45_874_500);
    assert_eq!(UpdateProjection::Day(46_811).update_probability(), 41_193_400);
    assert_eq!(UpdateProjection::Day(0xffff).update_probability(), 39_321_000);
    assert_eq!(UpdateProjection::Week(0).update_probability(), 18_349_800);
    assert_eq!(UpdateProjection::Week(0xffff).update_probability(), 11_796_300);
    // never fetched on the greatest draw, always on the least
    assert!(!UpdateProjection::Week(0).should_fetch(u64::MAX));
    assert!(UpdateProjection::Week(0).should_fetch(0));
    assert!(UpdateProjection::Day(0).should_fetch(u64::MAX));
}

#[test]
fn parses_days_and_points_in_time() {
    assert_eq!(
        parse_date("2021-05-03T00:00:00Z"),
        Some(Date::Time(Timestamp { secs: 1_620_000_000, nanos: 0 }))
    );
    assert_eq!(
        parse_date("2021-05-03T02:00:00.5+02:00"),
        Some(Date::Time(Timestamp { secs: 1_620_000_000, nanos: 500_000_000 }))
    );
    assert_eq!(parse_date("1970-01-01"), Some(Date::Date(719_163)));
    assert_eq!(parse_date("2021-05-03"), Some(Date::Date(NOW.day() as i32)));
    assert_eq!(parse_date("2021-13-03"), None);
    assert_eq!(parse_date("2021-05-03 00:00:00"), None);
    assert_eq!(parse_date("Tomorrow"), None);
    assert_eq!(parse_date(""), None);
}

#[test]
fn projects_a_source_by_the_newest_version_that_a_user_points_at() {
    let mut data = Data::new();
    assert_eq!(get_item_up(&data, "ex:///s", NOW), Ok(UpdateProjection::Day(0xffff)));
    let old = data
        .create_source_version("ex:///s", &SourceMetadata { tags: vec![0x80] }, &Vec::new(), Some("2021-04-01"))
        .unwrap();
    let new = data
        .create_source_version("ex:///s", &SourceMetadata { tags: vec![0x80] }, &Vec::new(), Some("2021-05-02T23:50:00Z"))
        .unwrap();
    data.user_update_source(1, "ex:///s", "2021-04-01T00:00:00+00:00", &old).unwrap();
    // thirty-two days before
    assert_eq!(get_item_up(&data, "ex:///s", NOW), Ok(UpdateProjection::Week(62_540)));
    data.user_update_source(2, "ex:///s", "2021-05-02T23:55:00+00:00", &new).unwrap();
    assert_eq!(get_item_up(&data, "ex:///s", NOW), Ok(UpdateProjection::Hour(65_080)));
}

#[test]
fn fills_the_queue_when_it_is_empty() {
    let mut data = Data::new();
    data.user_subscribe_source(1, "ex:///s").unwrap();
    data.user_subscribe_source(2, "ex:///s").unwrap();
    data.user_subscribe_source(1, "ex:///t").unwrap();
    let mut state = AutoFetcherState::new();
    assert_eq!(state.maybe_enqueue(&data, NOW), 3);
    let sources: Vec<&str> = state.queue.iter().map(|j| j.source.as_str()).collect();
    assert_eq!(sources, vec!["ex:///s", "ex:///s", "ex:///t"]);
    assert!(state.queue.iter().all(|j| j.up == UpdateProjection::Day(0xffff)));
    // a queue that holds a job is left alone
    assert_eq!(state.maybe_enqueue(&data, NOW), 0);
    assert_eq!(state.queue.len(), 3);
}

#[test]
fn takes_jobs_off_the_queue_in_their_order() {
    let mut state = AutoFetcherState::new();
    assert!(matches!(state.next_job(0), JobStep::Empty));
    assert!(matches!(state.fetch_one(), JobStep::Empty));
    state.queue.push_back(FetcherJob { up: UpdateProjection::Week(0), source: "ex:///s".into() });
    state.queue.push_back(FetcherJob { up: UpdateProjection::Hour(0), source: "no uri".into() });
    state.queue.push_back(FetcherJob { up: UpdateProjection::Week(0), source: "ex:///t".into() });
    state.queue.push_back(FetcherJob { up: UpdateProjection::Hour(0), source: "abcdefgh:///u".into() });
    assert!(matches!(state.next_job(0), JobStep::Fetch(ref job, ref domain) if job.source == "ex:///s" && domain == "ex"));
    assert!(matches!(state.next_job(0), JobStep::Skip(ref job) if job.source == "no uri"));
    assert!(matches!(state.next_job(u64::MAX), JobStep::Skip(ref job) if job.source == "ex:///t"));
    assert!(matches!(state.fetch_one(), JobStep::Fetch(ref job, ref domain) if job.source == "abcdefgh:///u" && domain == "abcdefgh"));
    assert!(state.queue.is_empty());
}

#[test]
fn fetches_the_items_that_are_not_virtual() {
    let mut data = Data::new();
    let items = vec![
        SourceMetaItem { path: "/a".into(), is_virtual: false, tags: vec![0x80] },
        SourceMetaItem { path: "/v".into(), is_virtual: true, tags: vec![0x80] },
        SourceMetaItem { path: "/b?x".into(), is_virtual: false, tags: vec![0x80] },
    ];
    let hash = data
        .create_source_version("ex:///s", &SourceMetadata { tags: vec![0x80] }, &items, None)
        .unwrap();
    assert_eq!(
        items_to_fetch(&data, "ex", &hash).unwrap(),
        vec!["ex:///a".to_string(), "ex:///b".to_string()]
    );
    assert!(items_to_fetch(&data, "ex", "no such hash").unwrap().is_empty());
    data.user_subscribe_source(1, "ex:///s").unwrap();
    assert_eq!(maybe_fetch_one_item(&data, "ex:///s", "ex:///a"), Ok(true));
    assert_eq!(maybe_fetch_one_item(&data, "ex:///s", ""), Ok(false));
    assert_eq!(maybe_fetch_one_item(&data, "ex:///other", "ex:///a"), Ok(false));
    data.user_update_source_item(1, "ex:///a", "d", "h").unwrap();
    assert_eq!(maybe_fetch_one_item(&data, "ex:///s", "ex:///a"), Ok(false));
}

#[test]
fn the_intervals_have_defaults() {
    let mut config = Config {
        bind_addr: String::new(),
        database: String::new(),
        private_key: String::new(),
        base_path: String::new(),
        auto_fetcher: None,
    };
    assert!(config.is_dev());
    assert_eq!(get_cycle_sleep(&config), 3600);
    assert_eq!(get_fetcher_wait(&config), 45);
    assert_eq!(get_fetcher_item_wait(&config), 40);
    assert_eq!(get_fetcher_count(&config), 3);
    config.private_key = "k".repeat(32);
    config.auto_fetcher = Some(AutoFetcherConfig {
        fetcher_count: 1,
        minor_interval: 2,
        minor_item_interval: 3,
        major_interval: 4,
    });
    assert!(!config.is_dev());
    assert_eq!(get_cycle_sleep(&config), 4);
    assert_eq!(get_fetcher_wait(&config), 2);
    assert_eq!(get_fetcher_item_wait(&config), 3);
    assert_eq!(get_fetcher_count(&config), 1);
    assert_eq!(phase_offset(0), 0);
    assert_eq!(phase_offset(3), 9);
}
