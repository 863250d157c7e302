use ratatui::style::{Color, Style};
use screensaver::layout::Region;
use screensaver::widgets::log::{select_sources, split_lines, Entry, Log, Window, SPEED_MS};

fn strings(lines: &[&str]) -> Vec<String> {
    lines.iter().map(|line| line.to_string()).collect()
}

fn entry(is_file: bool, extension: Option<&str>) -> Entry {
    Entry { is_file, extension: extension.map(|e| e.to_string()) }
}

fn corpus(count: usize) -> Log {
    let text: String = (0..count).map(|i| format!("line {i}\n")).collect();
    Log::new(Style::new(), &vec![text])
}

#[test]
fn text_without_a_line_feed_is_one_line() {
    assert_eq!(split_lines("fn main() {}"), strings(&["fn main() {}"]));
}

#[test]
fn empty_text_has_no_line() {
    assert_eq!(split_lines(""), Vec::<String>::new());
}

#[test]
fn the_last_line_feed_opens_no_line() {
    assert_eq!(split_lines("a\nb\n"), strings(&["a", "b"]));
    assert_eq!(split_lines("a\nb"), strings(&["a", "b"]));
}

#[test]
fn empty_lines_are_kept() {
    assert_eq!(split_lines("\n"), strings(&[""]));
    assert_eq!(split_lines("a\n\n\nb"), strings(&["a", "", "", "b"]));
}

#[test]
fn a_return_before_a_line_feed_is_dropped() {
    assert_eq!(split_lines("a\r\nb\r\n"), strings(&["a", "b"]));
    assert_eq!(split_lines("\r\n"), strings(&[""]));
}

#[test]
fn a_return_elsewhere_stays() {
    assert_eq!(split_lines("a\rb\n"), strings(&["a\rb"]));
    assert_eq!(split_lines("a\r\r\nb"), strings(&["a\r", "b"]));
    assert_eq!(split_lines("a\r"), strings(&["a\r"]));
    assert_eq!(split_lines("\r"), strings(&["\r"]));
}

#[test]
fn characters_of_any_width_pass_through() {
    assert_eq!(split_lines("héllo\nwörld — ✓\n"), strings(&["héllo", "wörld — ✓"]));
}

#[test]
fn lines_are_split_as_the_standard_library_splits_them() {
    let alphabet = ['a', '\r', '\n', 'é'];
    let mut texts: Vec<String> = vec![String::new()];
    let mut start = 0;
    for _ in 0..6 {
        let end = texts.len();
        for i in start..end {
            for c in alphabet {
                let mut longer = texts[i].clone();
                longer.push(c);
                texts.push(longer);
            }
        }
        start = end;
    }
    assert_eq!(texts.len(), 5461);
    for text in &texts {
        let expected: Vec<String> = text.lines().map(|line| line.to_string()).collect();
        assert_eq!(split_lines(text), expected, "{text:?}");
    }
}

#[test]
fn sources_are_regular_files_with_the_extension() {
    let entries = vec![
        entry(false, None),
        entry(true, Some("rs")),
        entry(true, Some("toml")),
        entry(false, Some("rs")),
        entry(true, None),
        entry(true, Some("rs")),
        entry(true, Some("RS")),
        entry(true, Some("rss")),
        entry(true, Some("r")),
        entry(true, Some("")),
    ];
    assert_eq!(select_sources(&entries), vec![1, 5]);
}

#[test]
fn sources_keep_the_order_of_the_walk() {
    let entries: Vec<Entry> = (0..50).map(|i| entry(i % 3 != 0, Some("rs"))).collect();
    let chosen = select_sources(&entries);
    let expected: Vec<usize> = (0..50).filter(|i| i % 3 != 0).collect();
    assert_eq!(chosen, expected);
}

#[test]
fn no_entries_no_sources() {
    assert_eq!(select_sources(&Vec::new()), Vec::<usize>::new());
    assert_eq!(select_sources(&vec![entry(true, Some("md"))]), Vec::<usize>::new());
}

#[test]
fn the_corpus_is_the_lines_of_all_files_in_order() {
    let files = vec![
        "one\ntwo\n".to_string(),
        String::new(),
        "three".to_string(),
        "\r\nfour\r\n".to_string(),
    ];
    let log = Log::new(Style::new(), &files);
    assert_eq!(*log.lines(), strings(&["one", "two", "three", "", "four"]));
    assert_eq!(log.elapsed_ms(), 0);
}

#[test]
fn a_log_without_files_has_no_lines() {
    let log = Log::new(Style::new(), &Vec::new());
    assert!(log.lines().is_empty());
}

#[test]
fn update_stores_elapsed_and_nothing_else() {
    let style = Style::new().fg(Color::Green);
    let mut log = Log::new(style, &vec!["a\nb\n".to_string()]);
    log.update(4_321);
    assert_eq!(log.elapsed_ms(), 4_321);
    assert_eq!(*log.lines(), strings(&["a", "b"]));
    assert_eq!(log.style(), style);
}

#[test]
fn five_lines_three_rows_after_1700_ms() {
    assert_eq!(SPEED_MS, 1_000);
    let window = Window::new(1_700, 5, 3);
    assert_eq!(window, Window { offset: 3, line_count: 2, end: 5 });
}

#[test]
fn the_window_is_cut_at_the_end_of_the_corpus() {
    // period 3 of 5 lines, 4 rows high: offset 12 mod 5 = 2; 3 lines arrived.
    let window = Window::new(3_999, 5, 4);
    assert_eq!(window, Window { offset: 2, line_count: 3, end: 5 });
    // period 4: offset 16 mod 5 = 1; 90% of 10 rows arrived, the corpus ends first.
    let window = Window::new(4_900, 5, 10);
    assert_eq!(window, Window { offset: 0, line_count: 9, end: 5 });
}

#[test]
fn the_window_over_an_empty_corpus_is_empty() {
    for elapsed in [0u128, 999, 1_700, 123_456] {
        let window = Window::new(elapsed, 0, 30);
        assert_eq!((window.offset, window.end), (0, 0));
    }
    assert_eq!(Window::new(1_700, 0, 3).line_count, 2);
}

#[test]
fn the_window_with_no_rows_is_empty() {
    let window = Window::new(5_500, 7, 0);
    assert_eq!(window, Window { offset: 0, line_count: 0, end: 0 });
}

#[test]
fn the_window_stays_inside_the_corpus() {
    for count in [1usize, 2, 5, 7, 100] {
        for height in [0u16, 1, 3, 24, 200] {
            for elapsed in (0..12_000u128).step_by(37) {
                let window = Window::new(elapsed, count, height);
                assert!(window.offset < count);
                assert!(window.offset <= window.end && window.end <= count);
                assert!(window.line_count <= height as usize);
            }
        }
    }
}

#[test]
fn lines_arrive_steadily_and_start_over_with_each_period() {
    for height in [1u16, 3, 24, 999] {
        for period in [0u128, 1, 41] {
            let mut last = 0;
            for within in 0..1_000u128 {
                let count = Window::new(period * SPEED_MS + within, 10, height).line_count;
                if within == 0 {
                    assert_eq!(count, 0);
                }
                assert!(count >= last);
                last = count;
            }
            assert_eq!(last, (999 * height as usize) / 1000);
        }
    }
}

#[test]
fn the_window_survives_the_largest_inputs() {
    let window = Window::new(u128::MAX, usize::MAX, u16::MAX);
    assert!(window.offset < usize::MAX);
    assert!(window.offset <= window.end);
    assert!(window.line_count < u16::MAX as usize);
}

#[test]
fn the_log_shows_the_lines_inside_its_window() {
    let mut log = corpus(5);
    log.update(1_700);
    let view = log.render(Region::new(40, 0, 80, 3));
    assert_eq!(view.window, Window { offset: 3, line_count: 2, end: 5 });
    assert_eq!(view.lines, strings(&["line 3", "line 4"]));
    assert_eq!(view.subsec_millis, 700);
}

#[test]
fn the_log_shows_nothing_at_the_start_of_a_period() {
    let mut log = corpus(5);
    log.update(2_000);
    let view = log.render(Region::new(40, 0, 80, 3));
    assert_eq!(view.window, Window { offset: 1, line_count: 0, end: 1 });
    assert!(view.lines.is_empty());
}

#[test]
fn an_empty_log_renders_without_reading_a_line() {
    let mut log = Log::new(Style::new(), &Vec::new());
    for elapsed in [0u128, 1_700, 99_999] {
        log.update(elapsed);
        let view = log.render(Region::new(0, 0, 80, 24));
        assert!(view.lines.is_empty());
        assert_eq!((view.window.offset, view.window.end), (0, 0));
    }
}

#[test]
fn the_offset_follows_the_height_of_the_region() {
    let mut log = corpus(100);
    log.update(7_500);
    assert_eq!(log.render(Region::new(0, 0, 80, 10)).window.offset, 70);
    assert_eq!(log.render(Region::new(0, 0, 80, 24)).window.offset, 68);
}

#[test]
fn the_log_is_a_function_of_elapsed_time_alone() {
    let mut first = corpus(9);
    let mut second = corpus(9);
    first.update(123);
    first.update(88_888);
    first.update(6_543);
    second.update(6_543);
    let area = Region::new(0, 0, 10, 4);
    let (a, b) = (first.render(area), second.render(area));
    assert_eq!(a.window, b.window);
    assert_eq!(a.lines, b.lines);
}
