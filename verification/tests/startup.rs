use roder_tui::startup::{TuiExitSummary, TuiStartup};

#[test]
fn startup_defaults_to_a_new_thread() {
    assert_eq!(TuiStartup::default(), TuiStartup::NewThread);
    let resume = TuiStartup::ResumeThread("thread-1".to_string());
    assert_eq!(resume.clone(), resume);
    assert_ne!(resume, TuiStartup::ResumeMenu);
    let team = TuiStartup::TeamAttach { team_id: "t".to_string(), member_id: "m".to_string() };
    assert_ne!(team, TuiStartup::RoadmapOpen { path: None });
}

#[test]
fn exit_summary_carries_the_resume_command() {
    let summary = TuiExitSummary {
        thread_id: "thread-1".to_string(),
        title: "Fix tests".to_string(),
        model: "gpt-5".to_string(),
        message_count: 4,
        resume_command: "roder resume thread-1".to_string(),
    };
    assert_eq!(summary.clone(), summary);
    assert_eq!(summary.message_count, 4);
}
