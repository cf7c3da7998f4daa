use fixed_fee_notes::notes::{Config, Error, Event, Pallet};

#[test]
fn quota_of_notes_then_rejection() {
    let max: u32 = 5;
    let who: u64 = 7;
    let mut pallet = Pallet::new(Config { max_note_len: 128, max_notes_per_account: max });

    // the first `max` additions succeed, announcing totals 1, 2, ..., max
    let mut i: u32 = 1;
    while i <= max {
        assert_eq!(pallet.add_note(who), Ok(()));
        assert_eq!(pallet.notes_count(who), i);
        assert_eq!(
            pallet.events()[(i - 1) as usize],
            Event::NoteAdded { who, total: i }
        );
        i += 1;
    }

    // the next one fails and changes nothing
    assert_eq!(pallet.add_note(who), Err(Error::TooManyNotes));
    assert_eq!(pallet.notes_count(who), max);
    assert_eq!(pallet.events().len(), max as usize);
}

#[test]
fn unobserved_account_counts_zero() {
    let pallet = Pallet::new(Config { max_note_len: 128, max_notes_per_account: 3 });
    assert_eq!(pallet.notes_count(42), 0);
    assert!(pallet.events().is_empty());
}

#[test]
fn accounts_are_counted_independently() {
    let mut pallet = Pallet::new(Config { max_note_len: 128, max_notes_per_account: 1 });
    assert_eq!(pallet.add_note(1), Ok(()));
    assert_eq!(pallet.add_note(1), Err(Error::TooManyNotes));
    // another account's quota is its own
    assert_eq!(pallet.add_note(2), Ok(()));
    assert_eq!(pallet.notes_count(1), 1);
    assert_eq!(pallet.notes_count(2), 1);
}

#[test]
fn zero_quota_rejects_the_first_note() {
    let mut pallet = Pallet::new(Config { max_note_len: 128, max_notes_per_account: 0 });
    assert_eq!(pallet.add_note(1), Err(Error::TooManyNotes));
    assert_eq!(pallet.notes_count(1), 0);
    assert!(pallet.events().is_empty());
}
