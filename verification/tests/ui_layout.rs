use kaishi::app::Role;
use ratatui::layout::{Constraint, Direction, Layout};
use kaishi::ui::{
    centered_box, centered_rect, effort_slider, file_item, file_popup_area, file_popup_title,
    message_preview, new_area, role_icon, scope_label, search_bar_area, search_preview, Area,
    CopyScope, SliderLook,
};

fn area(x: u16, y: u16, width: u16, height: u16) -> Area {
    Area { x, y, width, height }
}

#[test]
fn new_area_clamps_at_the_edge() {
    assert_eq!(new_area(1, 2, 3, 4), area(1, 2, 3, 4));
    assert_eq!(new_area(u16::MAX - 1, 0, 10, 10), area(u16::MAX - 1, 0, 1, 10));
}

#[test]
fn centered_box_centres_and_clips() {
    assert_eq!(centered_box(40, 5, area(0, 0, 100, 30)), area(30, 12, 40, 5));
    assert_eq!(centered_box(40, 5, area(2, 1, 20, 3)), area(2, 1, 20, 3));
}

fn ratatui_centered(px: u16, py: u16, r: ratatui::layout::Rect) -> ratatui::layout::Rect {
    let rows = Layout::default()
        .direction(Direction::Vertical)
        .constraints([
            Constraint::Percentage((100 - py) / 2),
            Constraint::Percentage(py),
            Constraint::Percentage((100 - py) / 2),
        ])
        .split(r);
    Layout::default()
        .direction(Direction::Horizontal)
        .constraints([
            Constraint::Percentage((100 - px) / 2),
            Constraint::Percentage(px),
            Constraint::Percentage((100 - px) / 2),
        ])
        .split(rows[1])[1]
}

#[test]
fn centered_rect_matches_percent_layout() {
    let r = centered_rect(80, 70, area(0, 0, 100, 50));
    assert_eq!(r, area(10, 8, 80, 35));
    for (px, py, w, h) in [(80u16, 70u16, 100u16, 50u16), (50, 50, 33, 17), (80, 70, 7, 3), (0, 0, 9, 9)] {
        let e = ratatui_centered(px, py, ratatui::layout::Rect::new(1, 2, w, h));
        let c = centered_rect(px, py, area(1, 2, w, h));
        assert_eq!(c, area(e.x, e.y, e.width, e.height));
        assert!(1 <= c.x && c.x + c.width <= 1 + w && 2 <= c.y && c.y + c.height <= 2 + h);
    }
    let full = centered_rect(100, 100, area(3, 4, 20, 10));
    assert_eq!(full, area(3, 4, 20, 10));
}

#[test]
fn file_popup_geometry() {
    assert_eq!(file_popup_area(0, area(0, 0, 100, 40)), area(2, 33, 60, 3));
    assert_eq!(file_popup_area(4, area(0, 0, 50, 40)), area(2, 30, 50, 6));
    assert_eq!(file_popup_area(25, area(0, 0, 80, 10)), area(2, 0, 60, 12));
    assert_eq!(file_popup_title(true), " Scanning… ");
    assert_eq!(file_popup_title(false), " Files ");
    assert_eq!(file_item("src/main.rs"), " src/main.rs");
}

#[test]
fn search_bar_geometry_and_preview() {
    assert_eq!(search_bar_area(area(0, 0, 80, 24)), area(0, 22, 80, 1));
    assert_eq!(search_bar_area(area(5, 1, 80, 1)), area(5, 1, 80, 1));
    let history = vec!["first".to_string(), "second".to_string()];
    assert_eq!(search_preview(&history, Some(1)), "second");
    assert_eq!(search_preview(&history, Some(2)), "");
    assert_eq!(search_preview(&history, None), "");
}

#[test]
fn labels_and_icons() {
    assert_eq!(scope_label(CopyScope::Message), "message");
    assert_eq!(scope_label(CopyScope::CodeBlock), "code block");
    assert_eq!(role_icon(Role::User), "›");
    assert_eq!(role_icon(Role::Assistant), "◆");
    assert_eq!(role_icon(Role::System), "·");
}

#[test]
fn preview_matches_std_lines() {
    for content in ["", "\n\n  \nhello\r\nworld", "a\0b\nc", "x\r", "one\ntwo\n", "\n", "a\n\nb"] {
        let (preview, n) = message_preview(content);
        let expected: String = content
            .lines()
            .find(|l| !l.trim().is_empty())
            .unwrap_or("")
            .chars()
            .filter(|&c| c != '\0')
            .take(80)
            .collect();
        assert_eq!(preview, expected, "{content:?}");
        assert_eq!(n, content.lines().count(), "{content:?}");
    }
    let long: String = "é".repeat(100);
    let (p, n) = message_preview(&long);
    assert_eq!(p.chars().count(), 80);
    assert_eq!(n, 1);
}

#[test]
fn effort_slider_marks_selected_level() {
    let spans = effort_slider(1);
    let texts: Vec<&str> = spans.iter().map(|s| s.text.as_str()).collect();
    assert_eq!(texts, vec!["○", " low ", " ── ", "●", " medium ", " ── ", "○", " high "]);
    assert_eq!(spans[3].look, SliderLook::Selected);
    assert_eq!(spans[0].look, SliderLook::Unselected);
    assert_eq!(spans[2].look, SliderLook::Separator);
    let spans = effort_slider(9);
    assert_eq!(spans[6].text, "●");
    assert_eq!(spans[7].look, SliderLook::Selected);
}
