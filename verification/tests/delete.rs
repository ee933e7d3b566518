use python_manager::cfg::settings::Settings;
use python_manager::cmd::delete::{DeleteAction, DeleteEvent, DeleteFlow, DeleteOutcome};
use python_manager::cmd::venvmgr::Venv;
use python_manager::notice::{Notice, Tone};

fn demo() -> Venv {
    Venv::new("demo".to_string(), "3.11".to_string(), vec![], false)
}

fn drive(mut flow: DeleteFlow, answers: Vec<DeleteEvent>) -> Vec<DeleteAction> {
    let mut asked: Vec<DeleteAction> = vec![flow.pending()];
    for answer in answers {
        flow.step(answer);
        asked.push(flow.pending());
    }
    asked
}

fn confirmation(dir: &str) -> DeleteAction {
    DeleteAction::Confirm {
        notice: Notice {
            tone: Tone::Warning,
            text: format!("Deleting virtual environment: demo at {}", dir),
        },
        prompt: Notice { tone: Tone::Info, text: "Do you want to continue? (y/n): ".to_string() },
    }
}

#[test]
fn deleting_what_is_not_there_does_nothing_twice() {
    let not_found = vec![
        DeleteAction::Check { dir: "/srv/envs/demo".to_string() },
        DeleteAction::Finish {
            notice: Some(Notice {
                tone: Tone::Warning,
                text: "Virtual environment does not exist".to_string(),
            }),
            outcome: DeleteOutcome::NotFound,
        },
    ];
    let first = drive(
        DeleteFlow::new(&demo(), "/srv/envs".to_string()),
        vec![DeleteEvent::Found(false)],
    );
    let second = drive(
        DeleteFlow::new(&demo(), "/srv/envs".to_string()),
        vec![DeleteEvent::Found(false)],
    );
    assert_eq!(first, not_found);
    assert_eq!(second, not_found);
}

#[test]
fn a_confirmed_deletion_removes_the_directory() {
    let asked = drive(
        DeleteFlow::new(&demo(), "/srv/envs".to_string()),
        vec![
            DeleteEvent::Found(true),
            DeleteEvent::Answered("y\n".to_string()),
            DeleteEvent::Removed,
        ],
    );
    assert_eq!(
        asked,
        vec![
            DeleteAction::Check { dir: "/srv/envs/demo".to_string() },
            confirmation("/srv/envs/demo"),
            DeleteAction::Remove { dir: "/srv/envs/demo".to_string() },
            DeleteAction::Finish {
                notice: Some(Notice {
                    tone: Tone::Success,
                    text: "demo has been deleted".to_string(),
                }),
                outcome: DeleteOutcome::Removed,
            },
        ]
    );
}

#[test]
fn any_other_answer_declines() {
    for answer in ["n\n", "\n", "yes\n", "Y\n", ""] {
        let asked = drive(
            DeleteFlow::new(&demo(), "/srv/envs".to_string()),
            vec![DeleteEvent::Found(true), DeleteEvent::Answered(answer.to_string())],
        );
        assert_eq!(
            asked[2],
            DeleteAction::Finish {
                notice: Some(Notice { tone: Tone::Info, text: "Deletion cancelled".to_string() }),
                outcome: DeleteOutcome::Declined,
            },
            "{:?}",
            answer
        );
    }
}

#[test]
fn a_failed_removal_is_reported_with_its_cause() {
    let asked = drive(
        DeleteFlow::new(&demo(), "/srv/envs".to_string()),
        vec![
            DeleteEvent::Found(true),
            DeleteEvent::Answered("y".to_string()),
            DeleteEvent::RemoveFailed("Permission denied (os error 13)".to_string()),
        ],
    );
    assert_eq!(
        asked[3],
        DeleteAction::Finish {
            notice: Some(Notice {
                tone: Tone::Failure,
                text: "Permission denied (os error 13) demo".to_string(),
            }),
            outcome: DeleteOutcome::Failed("Permission denied (os error 13)".to_string()),
        }
    );
}

#[test]
fn the_path_is_shown_with_forward_slashes() {
    let asked = drive(
        DeleteFlow::new(&demo(), "C:\\Users\\me\\envs".to_string()),
        vec![DeleteEvent::Found(true), DeleteEvent::Answered("y".to_string())],
    );
    assert_eq!(asked[0], DeleteAction::Check { dir: "C:\\Users\\me\\envs/demo".to_string() });
    assert_eq!(asked[1], confirmation("C:/Users/me/envs/demo"));
    assert_eq!(asked[2], DeleteAction::Remove { dir: "C:\\Users\\me\\envs/demo".to_string() });
}

#[test]
fn a_deletion_ignores_answers_to_what_was_not_asked() {
    let mut flow = DeleteFlow::new(&demo(), "/srv/envs".to_string());
    flow.step(DeleteEvent::Removed);
    flow.step(DeleteEvent::Answered("y".to_string()));
    flow.step(DeleteEvent::RemoveFailed("x".to_string()));
    assert_eq!(flow.pending(), DeleteAction::Check { dir: "/srv/envs/demo".to_string() });
    flow.step(DeleteEvent::Found(true));
    flow.step(DeleteEvent::Found(false));
    flow.step(DeleteEvent::Removed);
    assert_eq!(flow.pending(), confirmation("/srv/envs/demo"));
    flow.step(DeleteEvent::Answered("n".to_string()));
    flow.step(DeleteEvent::Answered("y".to_string()));
    flow.step(DeleteEvent::Removed);
    assert!(matches!(
        flow.pending(),
        DeleteAction::Finish { outcome: DeleteOutcome::Declined, .. }
    ));
}

#[test]
fn outcomes_of_a_deletion_are_copied_whole() {
    let outcomes = vec![
        DeleteOutcome::NotFound,
        DeleteOutcome::Declined,
        DeleteOutcome::Removed,
        DeleteOutcome::Failed("cause".to_string()),
    ];
    for outcome in &outcomes {
        assert_eq!(&outcome.duplicate(), outcome);
    }
}

#[test]
fn delete_works_under_the_expanded_root() {
    let settings = Settings { venvs_path: "~/pymngr/venvs".to_string(), default_pkgs: vec![] };
    let flow = demo().delete(&settings);
    let root = shellexpand::tilde("~/pymngr/venvs").to_string();
    assert_eq!(flow.pending(), DeleteAction::Check { dir: format!("{}/demo", root) });
}
