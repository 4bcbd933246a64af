use draft_hub::browser::{browser_request, BrowserRequest};
use draft_hub::data::browser_comms::BrowserData;
use draft_hub::data::gamedata::State;
use draft_hub::events::play_indicator;
use draft_hub::shared::latest_by_name;

fn names(v: &[&str]) -> Vec<String> {
    v.iter().map(|s| s.to_string()).collect()
}

#[test]
fn browser_page_request_is_recognized() {
    assert_eq!(browser_request("GET_PAGE"), Some(BrowserRequest::GetPage));
}

#[test]
fn other_browser_requests_are_refused() {
    assert_eq!(browser_request("get_page"), None);
    assert_eq!(browser_request(""), None);
    assert_eq!(browser_request("GET_PAGE\n"), None);
}

#[test]
fn browser_data_starts_empty() {
    let _b = BrowserData::new();
}

#[test]
fn states_are_distinct() {
    assert_ne!(State::Draft, State::Season);
    assert_ne!(State::Season, State::Undefined);
    assert_eq!(State::Undefined, State::Undefined);
}

#[test]
fn indicator_values() {
    assert_eq!(play_indicator(false, false), 0);
    assert_eq!(play_indicator(true, false), 1);
    assert_eq!(play_indicator(false, true), 2);
    assert_eq!(play_indicator(true, true), 3);
}

#[test]
fn indicator_decodes_to_each_player() {
    for p1 in [false, true] {
        for p2 in [false, true] {
            let i = play_indicator(p1, p2);
            assert!(i < 4);
            assert_eq!(i & 1 == 1, p1);
            assert_eq!(i & 2 == 2, p2);
        }
    }
}

#[test]
fn latest_player_of_each_name_is_kept() {
    let pool = names(&["none1", "none2,", "none1", "c", "none2,"]);
    assert_eq!(latest_by_name(&pool), vec![2, 3, 4]);
}

#[test]
fn latest_by_name_edge_cases() {
    assert_eq!(latest_by_name(&names(&[])), Vec::<usize>::new());
    assert_eq!(latest_by_name(&names(&["a"])), vec![0]);
    assert_eq!(latest_by_name(&names(&["a", "a", "a"])), vec![2]);
    assert_eq!(latest_by_name(&names(&["a", "b", "c"])), vec![0, 1, 2]);
}

#[test]
fn latest_by_name_keeps_each_name_once_and_loses_none() {
    let pool = names(&["x", "y", "x", "z", "y", "x", "w"]);
    let picked = latest_by_name(&pool);
    for (a, &i) in picked.iter().enumerate() {
        for &j in picked.iter().skip(a + 1) {
            assert_ne!(pool[i], pool[j]);
        }
    }
    for n in &pool {
        assert!(picked.iter().any(|&i| &pool[i] == n));
    }
}
