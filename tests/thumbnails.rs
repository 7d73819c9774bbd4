use ratatui::style::{Color, Style};
use tmux_deck::preview::{ansi_to_styled_grid, preview_runs, shrink_styled_content, StyledChar, StyledRun};

fn row(text: &str, style: Style) -> Vec<StyledChar> {
    text.chars().map(|ch| StyledChar::new(ch, style)).collect()
}

fn texts(line: &[StyledRun]) -> Vec<String> {
    line.iter().map(|r| r.text.iter().collect()).collect()
}

#[test]
fn fitting_content_is_kept_cell_for_cell() {
    let red = Style::default().fg(Color::Red);
    let plain = Style::default();
    let mut first = row("ab", red);
    first.extend(row("cd", plain));
    let grid = vec![first, row("xy  ", plain)];
    let out = shrink_styled_content(&grid, 4, 4, 4, plain);
    assert_eq!(out.len(), 4);
    assert_eq!(texts(&out[0]), vec!["ab", "cd"]);
    assert_eq!(out[0][0].style, red);
    assert_eq!(out[0][1].style, plain);
    assert_eq!(texts(&out[1]), vec!["xy"]);
    assert!(out[2].is_empty());
    assert!(out[3].is_empty());
}

#[test]
fn short_rows_are_padded_then_trimmed() {
    let plain = Style::default();
    let blue = Style::default().fg(Color::Blue);
    let grid = vec![row("ab", blue)];
    let out = shrink_styled_content(&grid, 5, 1, 5, plain);
    assert_eq!(texts(&out[0]), vec!["ab"]);
    assert_eq!(out[0][0].style, blue);
}

#[test]
fn wide_source_is_sampled_by_columns() {
    let plain = Style::default();
    let grid = vec![row("abcdefgh", plain)];
    let out = shrink_styled_content(&grid, 4, 1, 8, plain);
    assert_eq!(texts(&out[0]), vec!["aceg"]);
}

#[test]
fn tall_source_shows_the_bottom() {
    let plain = Style::default();
    let grid: Vec<Vec<StyledChar>> = (0..10).map(|i| row(&i.to_string(), plain)).collect();
    let out = shrink_styled_content(&grid, 1, 2, 1, plain);
    assert_eq!(out.len(), 2);
    assert_eq!(texts(&out[0]), vec!["6"]);
    assert_eq!(texts(&out[1]), vec!["8"]);
    let out = shrink_styled_content(&grid, 1, 3, 1, plain);
    assert_eq!(texts(&out[0]), vec!["4"]);
    assert_eq!(texts(&out[1]), vec!["6"]);
    assert_eq!(texts(&out[2]), vec!["8"]);
}

#[test]
fn empty_grid_still_fills_target_height() {
    let out = shrink_styled_content(&Vec::new(), 10, 3, 80, Style::default());
    assert_eq!(out.len(), 3);
    assert!(out.iter().all(|l| l.is_empty()));
    let out = shrink_styled_content(&vec![row("abc", Style::default())], 0, 2, 80, Style::default());
    assert_eq!(out.len(), 2);
    assert!(out.iter().all(|l| l.is_empty()));
}

#[test]
fn scaling_is_deterministic() {
    let content = "\x1b[32mok\x1b[0m done\nline two\n\x1b[1;31merr\x1b[0m";
    let a = preview_runs(content, 6, 2, 12, Style::default());
    let b = preview_runs(content, 6, 2, 12, Style::default());
    assert_eq!(a.len(), b.len());
    for (la, lb) in a.iter().zip(b.iter()) {
        assert_eq!(texts(la), texts(lb));
        assert_eq!(la.iter().map(|r| r.style).collect::<Vec<_>>(), lb.iter().map(|r| r.style).collect::<Vec<_>>());
    }
}

#[test]
fn escapes_become_styles() {
    let grid = ansi_to_styled_grid("\x1b[31mab\x1b[0mc\nplain", Style::default());
    assert_eq!(grid.len(), 2);
    let first: String = grid[0].iter().map(|c| c.ch).collect();
    assert_eq!(first, "abc");
    assert_eq!(grid[0][0].style.fg, Some(Color::Red));
    assert_ne!(grid[0][0].style, grid[0][2].style);
    let second: String = grid[1].iter().map(|c| c.ch).collect();
    assert_eq!(second, "plain");
}

#[test]
fn preview_of_styled_capture() {
    let out = preview_runs("\x1b[31mred\x1b[0m rest   \n", 10, 2, 10, Style::default());
    assert_eq!(out.len(), 2);
    assert_eq!(texts(&out[0]), vec!["red", " rest"]);
    assert_eq!(out[0][0].style.fg, Some(Color::Red));
    assert!(out[1].is_empty());
}
