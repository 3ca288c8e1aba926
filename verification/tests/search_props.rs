use wireguard_vanity::keys::Keypair;
use wireguard_vanity::matcher::matches_in_window;
use wireguard_vanity::search::evaluate_trial;
use wireguard_vanity::search::search_bounded;
use wireguard_vanity::search::trial;
use wireguard_vanity::search::SearchSpec;
use wireguard_vanity::search::SearchSpecError;

#[test]
fn rejects_empty_prefix() {
    let r = SearchSpec::new(vec![], 5, false);
    assert_eq!(r.unwrap_err(), SearchSpecError::EmptyPrefix);
}

#[test]
fn rejects_window_shorter_than_prefix() {
    let r = SearchSpec::new(vec![b'a', b'b', b'c'], 2, false);
    assert_eq!(r.unwrap_err(), SearchSpecError::WindowTooShort);
}

#[test]
fn rejects_window_past_the_rendering() {
    let r = SearchSpec::new(vec![b'a'], 45, false);
    assert_eq!(r.unwrap_err(), SearchSpecError::WindowTooLong);
}

#[test]
fn accepts_a_valid_spec() {
    let s = SearchSpec::new(vec![b'a', b'b'], 10, true).unwrap();
    assert_eq!(s.prefix, vec![b'a', b'b']);
    assert_eq!(s.end, 10);
    assert!(s.case_sensitive);
}

#[test]
fn single_char_search_finds_a_match() {
    // one folded base64 letter at offset 0: one of every 32 keys matches,
    // so 10,000 trials miss only with negligible probability
    let spec = SearchSpec::new(vec![b'a'], 1, false).unwrap();
    let found = search_bounded(&spec, 10_000).expect("a match within the trial budget");
    let rendered = found.encoded_public();
    assert!(matches_in_window(&rendered, &spec.prefix, 1, false));
    assert!(rendered[0] == b'a' || rendered[0] == b'A');
}

#[test]
fn boundary_window_matches_only_at_offset_zero() {
    // end equal to the target length: the rendering must start with it
    let spec = SearchSpec::new(vec![b'A'], 1, true).unwrap();
    let found = search_bounded(&spec, 20_000).expect("a match within the trial budget");
    assert_eq!(found.encoded_public()[0], b'A');
}

#[test]
fn evaluate_trial_keeps_exactly_the_matches() {
    let spec = SearchSpec::new(vec![b'A'], 1, true).unwrap();
    let mut kept = 0u32;
    let mut dropped = 0u32;
    for _ in 0..2000 {
        let k = Keypair::generate();
        let rendered = k.encoded_public();
        match evaluate_trial(k, &spec) {
            Some(m) => {
                assert_eq!(rendered[0], b'A');
                assert_eq!(m.encoded_public(), rendered);
                kept += 1;
            }
            None => {
                assert_ne!(rendered[0], b'A');
                dropped += 1;
            }
        }
    }
    // one in 64 keys starts with 'A'; both outcomes appear in 2000 trials
    // with overwhelming probability
    assert!(kept >= 1);
    assert!(dropped >= 1);
}

#[test]
fn trial_reports_only_real_matches() {
    let spec = SearchSpec::new(vec![b'Q'], 4, true).unwrap();
    for _ in 0..500 {
        if let Some(k) = trial(&spec) {
            let rendered = k.encoded_public();
            assert!(matches_in_window(&rendered, &spec.prefix, 4, true));
        }
    }
}
