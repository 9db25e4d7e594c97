use federation_core::ids::{PostId, SearchCombinedId};
use federation_core::search::SearchCombined;
use federation_core::signature::{in_window, verify, ActorKey, SignatureClaim, VerifyError};

fn claim(signed_at: u64) -> SignatureClaim {
    SignatureClaim {
        key_id: String::from("https://remote.example/u/ann#main-key"),
        signature: String::from("c2lnbmVk"),
        signed_at,
    }
}

fn key() -> ActorKey {
    ActorKey {
        actor: String::from("https://remote.example/u/ann"),
        key_id: String::from("https://remote.example/u/ann#main-key"),
    }
}

#[test]
fn a_verified_payload_is_the_actors() {
    let k = key();
    assert_eq!(
        verify(&claim(1000), Some(&k), &String::from("c2lnbmVk"), 1005, 10),
        Ok(String::from("https://remote.example/u/ann"))
    );
}

#[test]
fn each_rejection_is_named() {
    let k = key();
    let good = String::from("c2lnbmVk");
    assert_eq!(verify(&claim(1000), None, &good, 1005, 10), Err(VerifyError::UnknownActor));
    let other = ActorKey {
        actor: String::from("https://remote.example/u/ann"),
        key_id: String::from("https://remote.example/u/bob#main-key"),
    };
    assert_eq!(verify(&claim(1000), Some(&other), &good, 1005, 10), Err(VerifyError::KeyMismatch));
    assert_eq!(
        verify(&claim(1000), Some(&k), &String::from("b3RoZXI="), 1005, 10),
        Err(VerifyError::BadSignature)
    );
    assert_eq!(verify(&claim(1000), Some(&k), &good, 1011, 10), Err(VerifyError::Expired));
    assert_eq!(verify(&claim(1000), Some(&k), &good, 989, 10), Err(VerifyError::Expired));
    assert_eq!(
        verify(&claim(1000), Some(&k), &good, 1010, 10),
        Ok(String::from("https://remote.example/u/ann"))
    );
}

#[test]
fn the_window_is_closed_on_both_sides() {
    assert!(in_window(100, 100, 0));
    assert!(in_window(100, 105, 5));
    assert!(!in_window(100, 106, 5));
    assert!(in_window(100, 95, 5));
    assert!(!in_window(100, 94, 5));
    assert!(in_window(0, u64::MAX, u64::MAX));
    assert!(!in_window(u64::MAX, 0, 5));
}

#[test]
fn a_search_row_holds_what_it_was_given() {
    let row = SearchCombined {
        id: SearchCombinedId(1),
        published_at: 1_700_000_000_000_000,
        score: -3,
        post_id: Some(PostId(7)),
        comment_id: None,
        community_id: None,
        person_id: None,
        multi_community_id: None,
    };
    let copy = row.clone();
    assert_eq!(row, copy);
    assert_eq!(copy.post_id, Some(PostId(7)));
    assert_eq!(copy.score, -3);
}
