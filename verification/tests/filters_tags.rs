use dotfiles::filters::{filter_keeps, source_interest, Filters, Token};
use dotfiles::supervisor::PollInterest;
use dotfiles::tags::{Tag, TagState, Tags};

#[test]
fn test_add_match() {
    let mut f: Filters<String, fn(u32) -> bool> = Filters::default();
    let token = f.add(
        "type='signal',interface='org.freedesktop.DBus.Properties',member='PropertiesChanged'".to_owned(),
        |_| true,
    );
    assert!(f.remove(token).is_some());
}

#[test]
fn tokens_start_at_one_and_grow() {
    let mut f: Filters<&str, u32> = Filters::default();
    let a = f.add("rule a", 1);
    let b = f.add("rule b", 2);
    assert_eq!(a, Token(1));
    assert_eq!(b, Token(2));
}

#[test]
fn remove_undoes_add() {
    let mut f: Filters<String, u32> = Filters::default();
    let a = f.add("a".to_owned(), 10);
    let b = f.add("b".to_owned(), 20);
    assert_eq!(f.remove(a), Some(("a".to_owned(), 10)));
    assert_eq!(f.remove(a), None);
    assert_eq!(f.remove(b), Some(("b".to_owned(), 20)));
}

#[test]
fn removed_tokens_are_not_reused() {
    let mut f: Filters<u8, u8> = Filters::default();
    let a = f.add(0, 0);
    f.remove(a);
    let b = f.add(1, 1);
    assert_ne!(a, b);
    assert_eq!(f.remove(Token(99)), None);
}

fn bar(states: &[TagState]) -> Tags {
    let mut t = Tags::new(states.len());
    for (i, s) in states.iter().enumerate() {
        t.tag_event(i as u32, *s, 0, 0);
    }
    t
}

#[test]
fn new_tags_are_default() {
    let t = Tags::new(9);
    assert_eq!(t.tags.len(), 9);
    assert!(t.tags.iter().all(|x| *x == Tag::default()));
    assert_eq!(Tag::default().state, TagState::Inactive);
}

#[test]
fn runs_without_tags() {
    assert_eq!(Tags::new(0).inactive_runs(), vec![(0, 0)]);
}

#[test]
fn runs_all_inactive() {
    assert_eq!(Tags::new(4).inactive_runs(), vec![(0, 4)]);
}

#[test]
fn runs_first_active() {
    let t = bar(&[TagState::Active, TagState::Inactive, TagState::Inactive, TagState::Urgent, TagState::Inactive]);
    assert_eq!(t.inactive_runs(), vec![(0, 0), (1, 3), (4, 5)]);
}

#[test]
fn runs_middle_active_block() {
    let t = bar(&[TagState::Inactive, TagState::Active, TagState::Active, TagState::Inactive]);
    assert_eq!(t.inactive_runs(), vec![(0, 1), (3, 4)]);
}

#[test]
fn runs_last_active() {
    let t = bar(&[TagState::Inactive, TagState::Inactive, TagState::Urgent]);
    assert_eq!(t.inactive_runs(), vec![(0, 2)]);
    let all = bar(&[TagState::Active, TagState::Active]);
    assert_eq!(all.inactive_runs(), vec![(0, 0)]);
}

#[test]
fn tag_event_updates_one_tag() {
    let mut t = Tags::new(3);
    t.tag_event(1, TagState::Urgent, 4, 2);
    assert_eq!(t.tags[1], Tag { state: TagState::Urgent, num_clients: 4, focused_client: 2 });
    assert_eq!(t.tags[0], Tag::default());
    assert!(t.tags[1].is_highlighted());
    assert!(!t.tags[0].is_highlighted());
}

#[test]
fn watch_registration_and_filter_lifetime() {
    assert_eq!(source_interest(true, true), Some(PollInterest::All));
    assert_eq!(source_interest(true, false), Some(PollInterest::Readable));
    assert_eq!(source_interest(false, true), Some(PollInterest::Writable));
    assert_eq!(source_interest(false, false), None);
    assert!(filter_keeps(false, false));
    assert!(filter_keeps(true, true));
    assert!(!filter_keeps(true, false));
}

#[test]
fn tokens_follow_call_order_across_removes() {
    let mut f: Filters<u8, u8> = Filters::default();
    let a = f.add(1, 1);
    let b = f.add(2, 2);
    assert_eq!(f.remove(a), Some((1, 1)));
    assert_eq!(f.remove(a), None);
    let c = f.add(3, 3);
    f.remove(c);
    let d = f.add(4, 4);
    assert_eq!((a, b, c, d), (Token(1), Token(2), Token(3), Token(4)));
    assert_eq!(f.remove(b), Some((2, 2)));
}
