//! The research engine: gating, idempotent starts, progress, display.

use star_empire::research::Research;
use star_empire::research::ResearchField;
use star_empire::research_manager::ResearchManager;
use star_empire::color::MenuColor;

fn s(t: &str) -> String {
    t.to_string()
}

fn catalog() -> ResearchManager {
    let fields = vec![ResearchField::new(s("phys"), s("Physics"))];
    let researches = vec![
        Research::new(s("root"), s("Root Tech"), 3, s("phys"), vec![], vec![], s("The basics")),
        Research::new(
            s("mid"),
            s("Mid Tech"),
            2,
            s("phys"),
            vec![s("root")],
            vec![],
            s("Builds on the basics"),
        ),
        Research::new(
            s("top"),
            s("Top Tech"),
            4,
            s("phys"),
            vec![s("root"), s("mid")],
            vec![],
            s("The crown"),
        ),
        Research::new(
            s("alt"),
            s("Alt Tech"),
            5,
            s("phys"),
            vec![],
            vec![s("root"), s("mid")],
            s("A side path"),
        ),
    ];
    ResearchManager::new(fields, researches)
}

fn finish(m: &mut ResearchManager, id: &str, cost: u32) {
    m.start_research(&s(id));
    for _ in 0..cost {
        m.tick();
    }
}

#[test]
fn research_without_prerequisites_is_immediately_available() {
    let m = catalog();
    assert!(m.are_research_requirements_satisfied(&s("root")));
}

#[test]
fn unmet_required_all_blocks_research() {
    let mut m = catalog();
    assert!(!m.are_research_requirements_satisfied(&s("mid")));
    assert!(!m.are_research_requirements_satisfied(&s("top")));
    finish(&mut m, "root", 3);
    assert!(m.are_research_requirements_satisfied(&s("mid")));
    // "top" still waits for "mid".
    assert!(!m.are_research_requirements_satisfied(&s("top")));
}

#[test]
fn required_any_needs_one_finished_member() {
    let mut m = catalog();
    assert!(!m.are_research_requirements_satisfied(&s("alt")));
    finish(&mut m, "root", 3);
    assert!(m.are_research_requirements_satisfied(&s("alt")));
}

#[test]
fn unknown_id_counts_as_unsatisfied() {
    let m = catalog();
    assert!(!m.are_research_requirements_satisfied(&s("nope")));
}

#[test]
fn start_research_is_idempotent() {
    let mut m = catalog();
    m.start_research(&s("root"));
    m.start_research(&s("root"));
    assert_eq!(m.progress.len(), 1);
    assert_eq!(m.progress[0].id, s("root"));
}

#[test]
fn start_research_on_locked_id_is_a_no_op() {
    let mut m = catalog();
    m.start_research(&s("top"));
    assert_eq!(m.progress.len(), 0);
}

#[test]
fn progress_accumulates_and_caps_at_cost() {
    let mut m = catalog();
    m.start_research(&s("root"));
    m.tick();
    assert_eq!(m.progress[0].progress, 1);
    assert!(!m.progress[0].is_finished);
    m.tick();
    m.tick();
    assert_eq!(m.progress[0].progress, 3);
    assert!(m.progress[0].is_finished);
    m.tick();
    assert_eq!(m.progress[0].progress, 3);
}

#[test]
fn progress_text_covers_all_states() {
    let mut m = catalog();
    assert_eq!(m.get_research_text(&s("mid")), s("Research locked"));
    assert_eq!(m.get_research_text(&s("root")), s("Research available"));
    m.start_research(&s("root"));
    m.tick();
    assert_eq!(
        m.get_research_text(&s("root")),
        s("Research in progress: 33% (1/3)")
    );
    m.tick();
    m.tick();
    assert_eq!(m.get_research_text(&s("root")), s("Research complete"));
}

#[test]
fn progress_percentage_is_floored() {
    let mut m = catalog();
    assert_eq!(m.get_research_progress(&s("root")), 0);
    m.start_research(&s("root"));
    m.tick();
    assert_eq!(m.get_research_progress(&s("root")), 33);
    m.tick();
    assert_eq!(m.get_research_progress(&s("root")), 66);
    m.tick();
    assert_eq!(m.get_research_progress(&s("root")), 100);
}

#[test]
fn dependency_info_lists_catalog_entries() {
    let m = catalog();
    let info = m.get_dependency_info(&s("top"));
    assert_eq!(info.len(), 2);
    assert_eq!(info[0].len(), 2);
    assert_eq!(info[0][0].0, s("Root Tech"));
    assert_eq!(info[0][0].1, false);
    assert_eq!(info[0][1].0, s("Mid Tech"));
    // Empty required-any list renders the sentinel row.
    assert_eq!(info[1].len(), 1);
    assert_eq!(info[1][0].0, s("No technologies required"));
    assert_eq!(info[1][0].1, true);
}

#[test]
fn dependency_info_for_unknown_id_is_empty() {
    let m = catalog();
    assert_eq!(m.get_dependency_info(&s("nope")).len(), 0);
}

#[test]
fn research_colors_track_state() {
    let mut m = catalog();
    assert_eq!(m.get_research_color(&s("mid")), MenuColor::DarkGray);
    assert_eq!(m.get_research_color(&s("root")), MenuColor::LightRed);
    finish(&mut m, "root", 3);
    assert_eq!(m.get_research_color(&s("root")), MenuColor::LightCyan);
}

#[test]
fn field_listing_carries_ids_and_names() {
    let m = catalog();
    let fields = m.get_research_fields();
    assert_eq!(fields.len(), 1);
    assert_eq!(fields[0].0, s("phys"));
    assert_eq!(fields[0].1, s("Physics"));
}

#[test]
fn researches_by_field_come_in_catalog_order() {
    let m = catalog();
    let rs = m.get_researches_with_colors_by_field(&s("phys"));
    assert_eq!(rs.len(), 4);
    assert_eq!(rs[0].0, s("root"));
    assert_eq!(rs[3].0, s("alt"));
}

#[test]
fn research_info_renders_cost_and_description() {
    let m = catalog();
    let info = m.get_research_info(&s("root"));
    assert_eq!(info.len(), 3);
    assert_eq!(info[0][0], s("Root Tech"));
    assert_eq!(info[1][0], s("Cost: 3 points"));
    assert_eq!(info[2][0], s("Description: The basics"));
}
