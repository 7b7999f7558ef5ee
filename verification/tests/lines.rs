use solito::screen::cell::{ScreenCell, ScreenLine};
use solito::screen::lines::ScreenLines;

fn line(n: usize) -> ScreenLine {
    vec![ScreenCell {
        ch: char::from_u32(65 + (n % 26) as u32).unwrap(),
        ..Default::default()
    }]
}

#[test]
fn blocks_match_vec_across_history_eviction_and_screen_edits() {
    let mut expected: Vec<_> = (0..200).map(line).collect();
    let mut actual: ScreenLines = ScreenLines::from_lines(expected.clone());
    let saved = actual.clone();
    let original = expected.clone();
    for step in 0..600 {
        let remove = step % 5;
        actual.discard_prefix(remove);
        expected.drain(..remove);
        for n in 0..remove + 1 {
            actual.push_back(line(step + n));
            expected.push(line(step + n));
        }
        let row = step % expected.len();
        assert_eq!(actual.remove(row), expected.remove(row));
        actual.insert(row, line(step));
        expected.insert(row, line(step));
        actual.get_mut(row).unwrap()[0].ch = '!';
        expected[row][0].ch = '!';
        assert!(actual.iter().into_iter().eq(expected.iter()));
        assert!(saved.iter().into_iter().eq(original.iter()));
    }
    actual.discard_prefix(actual.len());
    actual.push_back(line(0));
    assert_eq!(actual.remove(0), line(0));
    assert!(actual.is_empty());
}

#[test]
fn get_answers_none_past_the_last_row() {
    let mut lines = ScreenLines::new();
    assert!(lines.get(0).is_none());
    lines.push_back(line(1));
    assert_eq!(lines.get(0), Some(&line(1)));
    assert!(lines.get(1).is_none());
    assert!(lines.get_mut(1).is_none());
}

#[test]
fn rows_cross_block_boundaries_in_order() {
    let rows: Vec<ScreenLine> = (0..130).map(line).collect();
    let mut lines = ScreenLines::from_lines(rows.clone());
    assert_eq!(lines.len(), 130);
    for (index, row) in rows.iter().enumerate() {
        assert_eq!(lines.get(index), Some(row));
    }
    lines.discard_prefix(70);
    assert_eq!(lines.len(), 60);
    assert_eq!(lines.get(0), Some(&line(70)));
    assert_eq!(lines.get(59), Some(&line(129)));
}

#[test]
fn a_copy_keeps_its_rows_when_the_original_changes() {
    let mut lines = ScreenLines::from_lines((0..100).map(line).collect());
    let copy = lines.clone();
    lines.get_mut(3).unwrap()[0].ch = '?';
    lines.remove(0);
    assert_eq!(copy.len(), 100);
    assert_eq!(copy.get(3), Some(&line(3)));
    assert_eq!(lines.get(2).unwrap()[0].ch, '?');
}
