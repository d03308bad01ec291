use labtool::records::{Job, Status, Variable};
use labtool::style::Tint;
use labtool::output::Line;
use labtool::table::{job_cells, job_table, make_table, render_table, status_cell, variable_table,
    TableCell};

fn plain(text: &str) -> TableCell {
    TableCell { text: text.to_string(), tint: None, bold: false }
}

fn job_with_status(id: i64, status: Option<Status>) -> Job {
    Job {
        id: Some(id),
        name: Some(format!("job-{}", id)),
        stage: Some("test".to_string()),
        status,
        reference: Some("main".to_string()),
        duration: Some("12.5".to_string()),
        created_at: Some("2024-01-02T03:04:05Z".to_string()),
        finished_at: None,
        web_url: Some(format!("https://example.test/jobs/{}", id)),
    }
}

fn contents_of(table: &comfy_table::Table) -> Vec<Vec<String>> {
    table.row_iter().map(|row| row.cell_iter().map(|cell| cell.content()).collect()).collect()
}

fn header_of(table: &comfy_table::Table) -> Vec<String> {
    table.header().unwrap().cell_iter().map(|cell| cell.content()).collect()
}

fn styled(table: &mut comfy_table::Table) -> String {
    table.force_no_tty().enforce_styling().set_width(400);
    table.style_text_only();
    table.to_string()
}

#[test]
fn status_cell_is_green_for_success_only() {
    assert_eq!(
        status_cell(&Some(Status::Success)),
        TableCell { text: "success".to_string(), tint: Some(Tint::Green), bold: false }
    );
    assert_eq!(
        status_cell(&Some(Status::Other("success".to_string()))),
        TableCell { text: "success".to_string(), tint: Some(Tint::Green), bold: false }
    );
    assert_eq!(
        status_cell(&Some(Status::Failed)),
        TableCell { text: "failed".to_string(), tint: Some(Tint::Red), bold: false }
    );
    assert_eq!(
        status_cell(&Some(Status::Running)),
        TableCell { text: "running".to_string(), tint: Some(Tint::Red), bold: false }
    );
    assert_eq!(
        status_cell(&Some(Status::Other("Success".to_string()))),
        TableCell { text: "Success".to_string(), tint: Some(Tint::Red), bold: false }
    );
    assert_eq!(
        status_cell(&Some(Status::Other(String::new()))),
        TableCell { text: String::new(), tint: Some(Tint::Red), bold: false }
    );
    assert_eq!(status_cell(&None), TableCell { text: String::new(), tint: Some(Tint::Red), bold: false });
}

#[test]
fn job_cells_are_the_nine_columns() {
    let cells = job_cells(&job_with_status(-3, Some(Status::Success)));
    assert_eq!(
        cells,
        vec![
            plain("-3"),
            plain("job--3"),
            plain("test"),
            TableCell { text: "success".to_string(), tint: Some(Tint::Green), bold: false },
            plain("main"),
            plain("12.5"),
            plain("2024-01-02T03:04:05Z"),
            plain(""),
            plain("https://example.test/jobs/-3"),
        ]
    );
}

#[test]
fn absent_fields_are_empty_cells() {
    let job = Job {
        id: None,
        name: None,
        stage: None,
        status: None,
        reference: None,
        duration: None,
        created_at: None,
        finished_at: None,
        web_url: None,
    };
    let cells = job_cells(&job);
    assert_eq!(cells.len(), 9);
    for (i, cell) in cells.iter().enumerate() {
        assert_eq!(cell.text, "");
        assert!(!cell.bold);
        assert_eq!(cell.tint, if i == 3 { Some(Tint::Red) } else { None });
    }
}

#[test]
fn job_table_has_a_row_for_each_job() {
    let jobs = vec![
        job_with_status(1, Some(Status::Success)),
        job_with_status(2, Some(Status::Failed)),
        job_with_status(3, None),
    ];
    let mut table = job_table(&jobs);
    assert_eq!(
        header_of(&table),
        vec!["Job ID", "Name", "Stage", "Status", "Ref", "Duration", "Created At", "Finished At", "Web URL"]
    );
    assert_eq!(
        contents_of(&table),
        vec![
            vec!["1", "job-1", "test", "success", "main", "12.5", "2024-01-02T03:04:05Z", "", "https://example.test/jobs/1"],
            vec!["2", "job-2", "test", "failed", "main", "12.5", "2024-01-02T03:04:05Z", "", "https://example.test/jobs/2"],
            vec!["3", "job-3", "test", "", "main", "12.5", "2024-01-02T03:04:05Z", "", "https://example.test/jobs/3"],
        ]
    );
    assert_eq!(table.column_count(), 9);
    assert_eq!(table.current_style_as_preset(), comfy_table::presets::UTF8_FULL);
    assert_eq!(table.current_style_as_preset(), "││──╞═╪╡┆╌┼├┤┬┴┌┐└┘");
    assert!(matches!(table.content_arrangement(), comfy_table::ContentArrangement::Dynamic));
}

#[test]
fn job_table_colours_the_status_and_sets_the_header_bold() {
    let jobs = vec![job_with_status(1, Some(Status::Success)), job_with_status(2, Some(Status::Running))];
    let mut table = job_table(&jobs);
    let written = styled(&mut table);
    let lines: Vec<&str> = written.lines().collect();
    let header = lines.iter().find(|line| line.contains("Job ID")).unwrap();
    assert!(header.contains("\x1b[1mJob ID"));
    assert!(header.contains("\x1b[1mWeb URL"));
    let first = lines.iter().find(|line| line.contains("job-1")).unwrap();
    assert!(first.contains("\x1b[38;5;10msuccess"));
    assert!(!first.contains("38;5;9m"));
    assert!(!first.contains("\x1b[1m"));
    let second = lines.iter().find(|line| line.contains("job-2")).unwrap();
    assert!(second.contains("\x1b[38;5;9mrunning"));
    assert!(!second.contains("38;5;10m"));
}

#[test]
fn an_empty_job_table_has_its_header_only() {
    let mut table = job_table(&Vec::new());
    assert_eq!(table.row_count(), 0);
    assert_eq!(header_of(&table).len(), 9);
    assert_eq!(table.column_count(), 9);
}

#[test]
fn variable_table_has_a_row_for_each_variable() {
    let variables = vec![
        Variable { key: Some("A".to_string()), value: Some("1".to_string()) },
        Variable { key: None, value: Some("2".to_string()) },
        Variable { key: Some("C".to_string()), value: None },
    ];
    let mut table = variable_table(&variables);
    assert_eq!(header_of(&table), vec!["Key", "Value"]);
    assert_eq!(contents_of(&table), vec![vec!["A", "1"], vec!["", "2"], vec!["C", ""]]);
    assert_eq!(table.current_style_as_preset(), comfy_table::presets::UTF8_FULL);
    assert!(matches!(table.content_arrangement(), comfy_table::ContentArrangement::Disabled));
    let written = styled(&mut table);
    assert!(written.contains("\x1b[1mKey"));
    assert!(!written.contains("38;5;"));
}

#[test]
fn make_table_takes_any_cells() {
    let names = vec!["One".to_string(), "Two".to_string()];
    let rows = vec![
        vec![plain("a"), TableCell { text: "b".to_string(), tint: Some(Tint::Yellow), bold: true }],
        vec![plain("multi\nline"), plain("")],
    ];
    let mut table = make_table(&names, &rows, false);
    assert_eq!(header_of(&table), vec!["One", "Two"]);
    assert_eq!(contents_of(&table), vec![vec!["a", "b"], vec!["multi\nline", ""]]);
    assert!(matches!(table.content_arrangement(), comfy_table::ContentArrangement::Disabled));
    let written = styled(&mut table);
    assert!(written.contains("38;5;11m"));
    let mut dynamic = make_table(&names, &Vec::new(), true);
    assert!(matches!(dynamic.content_arrangement(), comfy_table::ContentArrangement::Dynamic));
    assert_eq!(dynamic.row_count(), 0);
    assert_eq!(dynamic.column_count(), 2);
}

fn is_border_line(line: &str, left: char, dash: char, joint: char, right: char) -> bool {
    let chars: Vec<char> = line.chars().collect();
    chars.len() >= 2
        && chars[0] == left
        && chars[chars.len() - 1] == right
        && chars[1..chars.len() - 1].iter().all(|c| *c == dash || *c == joint)
}

fn count_beginning(text: &str, mark: char) -> usize {
    text.lines().filter(|line| line.starts_with(mark)).count()
}

fn is_ruled(text: &str, rows: usize) -> bool {
    count_beginning(text, '╞') == 1 && count_beginning(text, '├') == rows.saturating_sub(1)
}

fn stands_in_frame(text: &str) -> bool {
    let lines: Vec<&str> = text.split('\n').collect();
    lines.len() >= 2
        && is_border_line(lines[0], '┌', '─', '┬', '┐')
        && is_border_line(lines[lines.len() - 1], '└', '─', '┴', '┘')
}

#[test]
fn a_rendered_table_stands_between_its_borders() {
    let names = vec!["One".to_string(), "Two".to_string(), "Three".to_string()];
    let rows = vec![
        vec![plain("a"), TableCell { text: "b".to_string(), tint: Some(Tint::Green), bold: true }, plain("")],
        vec![plain("multi\nline"), plain("┌┘"), plain("a very long cell ".repeat(40).as_str())],
    ];
    for dynamic in [false, true] {
        let written = render_table(&names, &rows, dynamic);
        assert!(stands_in_frame(&written));
        assert!(is_ruled(&written, rows.len()));
        assert!(written.contains("One"));
        assert_eq!(written.lines().next().unwrap().matches('┬').count(), 2);
        let bare = render_table(&names, &Vec::new(), dynamic);
        assert!(stands_in_frame(&bare));
        assert!(is_ruled(&bare, 0));
        assert_eq!(bare.lines().count(), 4);
        let nothing = render_table(&Vec::new(), &Vec::new(), dynamic);
        assert!(stands_in_frame(&nothing));
        assert!(is_ruled(&nothing, 0));
        let single = render_table(&vec![String::new()], &vec![vec![plain("")]], dynamic);
        assert!(stands_in_frame(&single));
        assert!(is_ruled(&single, 1));
        assert_eq!(single.lines().count(), 5);
        let many: Vec<Vec<TableCell>> = (0..20).map(|i| vec![plain(&i.to_string())]).collect();
        let tall = render_table(&vec!["n".to_string()], &many, dynamic);
        assert!(is_ruled(&tall, 20));
        assert_eq!(tall.lines().count(), 20 + 19 + 4);
        let marks = vec![vec![plain("├ ╞"), plain("╞\n├\n\r")], vec![plain("\n├"), plain("┌")]];
        let marked = render_table(&vec!["├".to_string(), "╞".to_string()], &marks, dynamic);
        assert!(stands_in_frame(&marked));
        assert!(is_ruled(&marked, 2));
    }
}

#[test]
fn the_tables_of_jobs_and_variables_stand_between_their_borders() {
    assert!(stands_in_frame(&Line::Jobs(Vec::new()).render()));
    assert!(stands_in_frame(&Line::Jobs(vec![job_with_status(1, Some(Status::Success))]).render()));
    assert!(stands_in_frame(&Line::Variables(Vec::new()).render()));
    assert!(stands_in_frame(
        &Line::Variables(vec![Variable { key: Some("K".to_string()), value: None }]).render()
    ));
    let jobs: Vec<Job> = (0..7).map(|i| job_with_status(i, None)).collect();
    assert!(is_ruled(&Line::Jobs(jobs).render(), 7));
    assert!(is_ruled(&Line::Jobs(Vec::new()).render(), 0));
    assert!(is_ruled(&Line::Variables(Vec::new()).render(), 0));
    let blank = Variable { key: Some(" ".repeat(70_000)), value: Some(" ".repeat(70_000)) };
    let written = Line::Variables(vec![blank.clone(), blank.clone(), blank]).render();
    assert!(stands_in_frame(&written));
    assert!(is_ruled(&written, 3));
    assert!(!stands_in_frame(""));
    assert!(!stands_in_frame("┌┐"));
    assert!(!stands_in_frame("┌x┐\n└┘"));
    assert!(stands_in_frame("┌┐\n└┘"));
}

#[test]
fn a_line_hands_out_the_table_that_it_shows() {
    let jobs = vec![job_with_status(1, Some(Status::Success)), job_with_status(2, None)];
    let table = Line::Jobs(jobs.clone()).table().unwrap();
    assert_eq!(header_of(&table), header_of(&job_table(&jobs)));
    assert_eq!(contents_of(&table), contents_of(&job_table(&jobs)));
    assert_eq!(contents_of(&table)[0][3], "success");
    let variables = vec![Variable { key: Some("K".to_string()), value: Some("v".to_string()) }];
    let table = Line::Variables(variables).table().unwrap();
    assert_eq!(header_of(&table), vec!["Key", "Value"]);
    assert_eq!(contents_of(&table), vec![vec!["K", "v"]]);
    assert!(Line::Text("x".to_string()).table().is_none());
    assert!(Line::Warning("x".to_string()).table().is_none());
    assert!(Line::Tinted("x".to_string(), Tint::Red).table().is_none());
}

#[test]
fn rows_of_blanks_may_vanish_and_the_ruling_stays() {
    let far = " ".repeat(70_000);
    let rows = vec![vec![plain(&far)], vec![plain(&far)], vec![plain("x")]];
    let written = render_table(&vec!["A".to_string()], &rows, false);
    assert!(stands_in_frame(&written));
    assert!(is_ruled(&written, 3));
    let mut narrow = make_table(&vec!["A".to_string()], &vec![vec![plain("     ")]], true);
    narrow.force_no_tty().set_width(6);
    let written = narrow.to_string();
    assert_eq!(written.lines().count(), 4);
    assert!(stands_in_frame(&written));
    assert!(is_ruled(&written, 1));
    let mut narrow = make_table(
        &vec!["     ".to_string()],
        &vec![vec![plain("     ")], vec![plain("     ")]],
        true,
    );
    narrow.force_no_tty().set_width(6);
    let written = narrow.to_string();
    assert!(stands_in_frame(&written));
    assert!(is_ruled(&written, 2));
}
