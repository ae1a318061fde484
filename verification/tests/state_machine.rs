use menus::editor::{EditEvent, InputBuffer};
use menus::filter::{clamp_index, filter_step, FilterState, FilterStep};
use menus::keys::Key;
use menus::numbered::{numbered_step, SelectNumberedResp};
use menus::select::{select_step, SelectStep};

fn drive_plain(len: usize, keys: &[Key], quit: Option<Key>) -> SelectStep {
    let mut idx: usize = 0;
    for &k in keys {
        match select_step(idx, len, k, quit) {
            SelectStep::Continue(j) => idx = j,
            done => return done,
        }
    }
    SelectStep::Continue(idx)
}

#[test]
fn plain_down_down_enter_selects_third() {
    // list = ["a", "b", "c"], events [Down, Down, Enter] from index 0
    let keys = [Key::Down, Key::Down, Key::Char('\n')];
    assert_eq!(drive_plain(3, &keys, None), SelectStep::Finish(Some(2)));
}

#[test]
fn plain_enter_on_empty_list_is_none() {
    assert_eq!(drive_plain(0, &[Key::Char('\n')], None), SelectStep::Finish(None));
    assert_eq!(
        drive_plain(0, &[Key::Down, Key::Up, Key::Char('\n')], Some(Key::Char('x'))),
        SelectStep::Finish(None)
    );
}

#[test]
fn plain_navigation_saturates() {
    // Up at 0 stays at 0; Down at the end stays at the end; never wraps.
    assert_eq!(select_step(0, 3, Key::Up, None), SelectStep::Continue(0));
    assert_eq!(select_step(2, 3, Key::Down, None), SelectStep::Continue(2));
    assert_eq!(select_step(0, 0, Key::Down, None), SelectStep::Continue(0));
    assert_eq!(select_step(1, 3, Key::Down, None), SelectStep::Continue(2));
    assert_eq!(select_step(1, 3, Key::Up, None), SelectStep::Continue(0));
}

#[test]
fn plain_index_stays_in_range_under_any_up_down_sequence() {
    let keys = [
        Key::Down,
        Key::Down,
        Key::Down,
        Key::Down,
        Key::Up,
        Key::Down,
        Key::Up,
        Key::Up,
        Key::Up,
        Key::Up,
        Key::Down,
    ];
    for len in 0..5usize {
        let mut idx: usize = 0;
        for &k in &keys {
            match select_step(idx, len, k, None) {
                SelectStep::Continue(j) => idx = j,
                _ => unreachable!(),
            }
            assert!(idx <= len.saturating_sub(1));
        }
    }
}

#[test]
fn plain_quit_and_interrupt_cancel() {
    assert_eq!(select_step(1, 3, Key::Ctrl('c'), None), SelectStep::Finish(None));
    assert_eq!(
        select_step(1, 3, Key::Char('x'), Some(Key::Char('x'))),
        SelectStep::Finish(None)
    );
    // an unrelated key changes nothing
    assert_eq!(select_step(1, 3, Key::Char('x'), None), SelectStep::Continue(1));
    assert_eq!(select_step(1, 3, Key::Esc, None), SelectStep::Continue(1));
}

#[test]
fn editor_caret_stays_in_bounds() {
    let mut b = InputBuffer::new();
    let events = [
        EditEvent::Insert('a'),
        EditEvent::Insert('b'),
        EditEvent::CaretLeft,
        EditEvent::CaretLeft,
        EditEvent::CaretLeft,
        EditEvent::Insert('c'),
        EditEvent::CaretRight,
        EditEvent::CaretRight,
        EditEvent::CaretRight,
        EditEvent::Backspace,
        EditEvent::Backspace,
        EditEvent::Backspace,
        EditEvent::Backspace,
    ];
    for &e in &events {
        b.apply(e);
        assert!(b.caret() <= b.len());
    }
}

#[test]
fn editor_insert_at_caret() {
    let mut b = InputBuffer::new();
    assert!(!b.apply(EditEvent::Insert('a')));
    assert!(!b.apply(EditEvent::Insert('c')));
    assert!(!b.apply(EditEvent::CaretLeft));
    assert!(!b.apply(EditEvent::Insert('b')));
    assert_eq!(b.chars().as_slice(), &['a', 'b', 'c'][..]);
    assert_eq!(b.caret(), 2);
}

#[test]
fn editor_rejects_non_ascii_unchanged() {
    let mut b = InputBuffer::new();
    b.apply(EditEvent::Insert('x'));
    b.apply(EditEvent::CaretLeft);
    let before: Vec<char> = b.chars().clone();
    let caret_before = b.caret();
    assert!(b.apply(EditEvent::Insert('\u{e9}')));
    assert!(b.apply(EditEvent::Insert('\u{2191}')));
    assert_eq!(b.chars(), &before);
    assert_eq!(b.caret(), caret_before);
}

#[test]
fn editor_backspace_at_zero_is_noop() {
    let mut b = InputBuffer::new();
    assert!(!b.apply(EditEvent::Backspace));
    assert_eq!(b.len(), 0);
    assert_eq!(b.caret(), 0);
    b.apply(EditEvent::Insert('a'));
    b.apply(EditEvent::CaretLeft);
    assert!(!b.apply(EditEvent::Backspace));
    assert_eq!(b.chars().as_slice(), &['a'][..]);
}

#[test]
fn clamp_is_idempotent_and_saturating() {
    for (idx, len) in [(0usize, 0usize), (3, 0), (2, 2), (5, 3), (1, 4)] {
        let once = clamp_index(idx, len);
        assert_eq!(clamp_index(once, len), once);
        assert!(once <= len);
        assert_eq!(once, idx.min(len));
    }
}

fn starts_with(items: &[&str], text: &str) -> Vec<String> {
    items.iter().filter(|s| s.starts_with(text)).map(|s| s.to_string()).collect()
}

#[test]
fn filter_narrowing_clamps_before_enter() {
    // query(text) returns the items whose label starts with text
    let items = ["apple", "banana", "cherry"];
    let mut st = FilterState::new();

    // walk down to the last item of the unfiltered list
    let mut list = starts_with(&items, "");
    assert_eq!(list.len(), 3);
    assert_eq!(filter_step(&mut st, list.len(), Key::Down, None), FilterStep::Continue { notice: false });
    assert_eq!(filter_step(&mut st, list.len(), Key::Down, None), FilterStep::Continue { notice: false });
    assert_eq!(st.idx, 2);

    // type "b": the buffer mutates, the list narrows, the index re-clamps
    assert_eq!(
        filter_step(&mut st, list.len(), Key::Char('b'), None),
        FilterStep::Continue { notice: false }
    );
    let text: Vec<char> = st.buffer.chars().clone();
    assert_eq!(text, vec!['b']);
    list = starts_with(&items, "b");
    assert_eq!(list, vec!["banana".to_string()]);
    st.idx = clamp_index(st.idx, list.len());
    assert_eq!(st.idx, 1);

    // the numeric clamp left the index past the end: Enter selects nothing
    assert_eq!(filter_step(&mut st, list.len(), Key::Char('\n'), None), FilterStep::Finish(None));

    // one step up and Enter accepts the narrowed item
    assert_eq!(filter_step(&mut st, list.len(), Key::Up, None), FilterStep::Continue { notice: false });
    assert_eq!(filter_step(&mut st, list.len(), Key::Char('\n'), None), FilterStep::Finish(Some(0)));
}

#[test]
fn filter_enter_on_empty_list_is_none() {
    let mut st = FilterState::new();
    assert_eq!(filter_step(&mut st, 0, Key::Char('\n'), None), FilterStep::Finish(None));
}

#[test]
fn filter_non_ascii_raises_notice_only() {
    let mut st = FilterState::new();
    assert_eq!(
        filter_step(&mut st, 0, Key::Char('\u{2193}'), None),
        FilterStep::Continue { notice: true }
    );
    assert_eq!(st.buffer.len(), 0);
    assert_eq!(st.buffer.caret(), 0);
}

#[test]
fn filter_character_key_edits_even_as_quit_key() {
    // editing keys take priority: a character quit key is typed, not obeyed
    let quit = Some(Key::Char('x'));
    let mut st = FilterState::new();
    assert_eq!(filter_step(&mut st, 0, Key::Char('x'), quit), FilterStep::Continue { notice: false });
    assert_eq!(st.buffer.chars().as_slice(), &['x'][..]);
    // the interrupt still cancels
    assert_eq!(filter_step(&mut st, 0, Key::Ctrl('c'), quit), FilterStep::Finish(None));
}

#[test]
fn filter_editing_keys() {
    let mut st = FilterState::new();
    for c in ['h', 'e', 'y'] {
        filter_step(&mut st, 0, Key::Char(c), None);
    }
    filter_step(&mut st, 0, Key::Left, None);
    filter_step(&mut st, 0, Key::Backspace, None);
    assert_eq!(st.buffer.chars().as_slice(), &['h', 'y'][..]);
    assert_eq!(st.buffer.caret(), 1);
    filter_step(&mut st, 0, Key::Right, None);
    filter_step(&mut st, 0, Key::Right, None);
    assert_eq!(st.buffer.caret(), 2);
}

#[test]
fn numbered_digit_in_range_selects() {
    for (d, len, want) in [('1', 3, 0usize), ('2', 3, 1), ('3', 3, 2), ('9', 9, 8)] {
        assert_eq!(
            numbered_step(Key::Char(d), len, Key::Char('q')),
            SelectNumberedResp::Index(want)
        );
    }
}

#[test]
fn numbered_bad_digits_are_unrecognized() {
    // digit 0, digit > N, non-digit
    assert_eq!(
        numbered_step(Key::Char('0'), 3, Key::Char('q')),
        SelectNumberedResp::UndefinedKey(Key::Char('0'))
    );
    assert_eq!(
        numbered_step(Key::Char('4'), 3, Key::Char('q')),
        SelectNumberedResp::UndefinedKey(Key::Char('4'))
    );
    assert_eq!(
        numbered_step(Key::Char('a'), 3, Key::Char('q')),
        SelectNumberedResp::UndefinedKey(Key::Char('a'))
    );
    assert_eq!(
        numbered_step(Key::Up, 3, Key::Char('q')),
        SelectNumberedResp::UndefinedKey(Key::Up)
    );
}

#[test]
fn numbered_quit_regardless_of_list() {
    for len in [0usize, 1, 3, 9] {
        assert_eq!(numbered_step(Key::Char('q'), len, Key::Char('q')), SelectNumberedResp::Quit);
        assert_eq!(numbered_step(Key::Ctrl('c'), len, Key::Char('q')), SelectNumberedResp::Quit);
    }
}
