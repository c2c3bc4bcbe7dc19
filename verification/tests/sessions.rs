use linkup_cli::health::Style;
use linkup_cli::sessions::{print_sessions_table, SessionRow};

fn render(lines: &[Vec<linkup_cli::health::Segment>]) -> Vec<String> {
    lines.iter().map(|l| l.iter().map(|s| s.text.as_str()).collect::<Vec<_>>().concat()).collect()
}

fn rows() -> Vec<SessionRow> {
    vec![
        SessionRow {
            name: "happy-cat".to_string(),
            kind: "tunneled".to_string(),
            domains: vec!["https://happy-cat.example.com".to_string(), "https://happy-cat.other.io".to_string()],
        },
        SessionRow { name: "sad-dog".to_string(), kind: "local".to_string(), domains: vec!["https://sad-dog.example.com".to_string()] },
    ]
}

#[test]
fn empty_table_prints_nothing() {
    assert!(print_sessions_table(&[], None).is_empty());
}

#[test]
fn table_with_marker() {
    let t = print_sessions_table(&rows(), Some("sad-dog"));
    let lines = render(&t);
    let nw = 14;
    let kw = 8;
    let dw = "https://happy-cat.example.com".len();
    let border = |l: &str, m: &str, r: &str| {
        format!("{}{}{}{}{}{}{}", l, "─".repeat(nw + 2), m, "─".repeat(kw + 2), m, "─".repeat(dw + 2), r)
    };
    let expected = vec![
        border("┌", "┬", "┐"),
        format!("│ {:<nw$} │ {:<kw$} │ {:<dw$} │", "  SESSION NAME", "TYPE", "DOMAINS"),
        border("├", "┼", "┤"),
        format!("│ {:<nw$} │ {:<kw$} │ {:<dw$} │", "  happy-cat", "tunneled", "https://happy-cat.example.com"),
        format!("│ {:<nw$} │ {:<kw$} │ {:<dw$} │", "", "", "https://happy-cat.other.io"),
        border("├", "┼", "┤"),
        format!("│ {:<nw$} │ {:<kw$} │ {:<dw$} │", "> sad-dog", "local", "https://sad-dog.example.com"),
        border("└", "┴", "┘"),
    ];
    assert_eq!(lines, expected);
    assert!(t[1][1].style == Style::Bold);
    assert!(t[3][1].style == Style::Plain);
    assert!(t[6][1].style == Style::Bold);
}

#[test]
fn table_without_marker() {
    let t = print_sessions_table(&rows()[1..], None);
    let lines = render(&t);
    assert_eq!(lines[1], format!("│ {:<12} │ {:<5} │ {:<27} │", "SESSION NAME", "TYPE", "DOMAINS"));
    assert_eq!(lines[3], format!("│ {:<12} │ {:<5} │ {:<27} │", "sad-dog", "local", "https://sad-dog.example.com"));
    assert_eq!(lines.len(), 5);
}
