use procyon::backoff::{Backoff, RetryPolicy};
use procyon::error::{DecodeFault, InteractionStep, SaveError};
use procyon::launcher::LaunchConfig;
use procyon::pipeline::{
    page_url, proceed_after_extraction, target_attribute, Action, Event, Locator, SaveConfig,
    SavePipeline, Stage, Target,
};

const PNG_URL: &str = "data:image/png;base64,iVBORw0KGgo=";
const PNG_BYTES: [u8; 8] = [0x89, b'P', b'N', b'G', 0x0d, 0x0a, 0x1a, 0x0a];

/// What a stub of the driver, the browser and the disk answers to an action.
#[derive(Clone, Copy, Debug, PartialEq, Eq)]
enum Fault {
    Nothing,
    Spawn,
    Session,
    Render,
    Navigate,
    Disclosure,
    OpenDisclosure,
    Link,
    ClickLink,
    Relocate,
    Target,
    BadTarget,
    Write,
}

/// Runs a save operation against the stub and returns the actions and the result.
fn run(config: SaveConfig, fault: Fault) -> (Vec<Action>, Result<(), SaveError>) {
    let mut pipeline = SavePipeline::new(config);
    let mut actions: Vec<Action> = Vec::new();
    let mut event = Event::Start;
    let mut finds = 0;
    let mut clicks = 0;
    for _ in 0..10_000 {
        let action = pipeline.step(event);
        event = match &action {
            Action::SpawnDriver { .. } if fault == Fault::Spawn => Event::Failed,
            Action::OpenSession { .. } if fault == Fault::Session => Event::Failed,
            Action::RenderPage if fault == Fault::Render => Event::Failed,
            Action::RenderPage => Event::Text("/tmp/chart.html".to_string()),
            Action::Navigate { .. } if fault == Fault::Navigate => Event::Failed,
            Action::Find(Target::Disclosure) if fault == Fault::Disclosure => Event::Failed,
            Action::Find(Target::ExportLink) => {
                finds += 1;
                if (finds == 1 && fault == Fault::Link) || (finds == 2 && fault == Fault::Relocate)
                {
                    Event::Failed
                } else {
                    Event::Done
                }
            }
            Action::Click => {
                clicks += 1;
                if (clicks == 1 && fault == Fault::OpenDisclosure)
                    || (clicks == 2 && fault == Fault::ClickLink)
                {
                    Event::Failed
                } else {
                    Event::Done
                }
            }
            Action::ReadTarget if fault == Fault::Target => Event::Failed,
            Action::ReadTarget if fault == Fault::BadTarget => {
                Event::Text("https://example.org/chart.png".to_string())
            }
            Action::ReadTarget => Event::Text(PNG_URL.to_string()),
            Action::WriteImage { .. } if fault == Fault::Write => Event::Failed,
            Action::Finish(result) => {
                let result = *result;
                assert_eq!(pipeline.result(), Some(result));
                actions.push(action);
                return (actions, result);
            }
            _ => Event::Done,
        };
        assert_eq!(pipeline.result(), None);
        actions.push(action);
    }
    panic!("the save operation did not end");
}

fn count(actions: &[Action], wanted: &Action) -> usize {
    actions.iter().filter(|action| *action == wanted).count()
}

fn quick() -> SaveConfig {
    SaveConfig {
        launch: LaunchConfig {
            start_port: 4444,
            retry: RetryPolicy {
                max_attempts: 3,
                backoff: Backoff::Exponential { base_millis: 100 },
            },
        },
        connect: RetryPolicy { max_attempts: 4, backoff: Backoff::Fixed { millis: 50 } },
        poll: RetryPolicy { max_attempts: 3, backoff: Backoff::Fixed { millis: 20 } },
    }
}

#[test]
fn a_chart_is_saved_step_by_step() {
    let (actions, result) = run(quick(), Fault::Nothing);
    assert_eq!(result, Ok(()));
    assert_eq!(
        actions,
        vec![
            Action::SpawnDriver { port: 4444 },
            Action::OpenSession { port: 4444 },
            Action::RenderPage,
            Action::Navigate { url: "file:///tmp/chart.html".to_string() },
            Action::Find(Target::Disclosure),
            Action::Click,
            Action::Find(Target::ExportLink),
            Action::Click,
            Action::Find(Target::ExportLink),
            Action::ReadTarget,
            Action::WriteImage { bytes: PNG_BYTES.to_vec() },
            Action::CloseHandle,
            Action::KillDriver,
            Action::Finish(Ok(())),
        ]
    );
}

#[test]
fn the_written_bytes_are_the_decoded_payload() {
    let (actions, result) = run(SaveConfig::standard(), Fault::Nothing);
    assert_eq!(result, Ok(()));
    let written: Vec<&Action> =
        actions.iter().filter(|action| matches!(action, Action::WriteImage { .. })).collect();
    assert_eq!(written, vec![&Action::WriteImage { bytes: PNG_BYTES.to_vec() }]);
}

#[test]
fn a_driver_that_never_starts_is_a_launch_failure() {
    let (actions, result) = run(quick(), Fault::Spawn);
    assert_eq!(result, Err(SaveError::LaunchFailure));
    assert_eq!(
        actions,
        vec![
            Action::SpawnDriver { port: 4444 },
            Action::Sleep { millis: 100 },
            Action::SpawnDriver { port: 4445 },
            Action::Sleep { millis: 10_000 },
            Action::SpawnDriver { port: 4447 },
            Action::CloseHandle,
            Action::KillDriver,
            Action::Finish(Err(SaveError::LaunchFailure)),
        ]
    );
}

#[test]
fn a_launcher_without_attempts_fails_at_once() {
    let mut config = quick();
    config.launch.retry.max_attempts = 0;
    let (actions, result) = run(config, Fault::Nothing);
    assert_eq!(result, Err(SaveError::LaunchFailure));
    assert_eq!(
        actions,
        vec![Action::CloseHandle, Action::KillDriver, Action::Finish(Err(SaveError::LaunchFailure))]
    );
}

#[test]
fn a_launcher_that_runs_out_of_ports_fails() {
    let mut config = quick();
    config.launch.start_port = u64::MAX;
    let (actions, result) = run(config, Fault::Spawn);
    assert_eq!(result, Err(SaveError::LaunchFailure));
    assert_eq!(
        actions,
        vec![
            Action::SpawnDriver { port: u64::MAX },
            Action::Sleep { millis: 100 },
            Action::CloseHandle,
            Action::KillDriver,
            Action::Finish(Err(SaveError::LaunchFailure)),
        ]
    );
}

#[test]
fn the_first_attempt_is_made_on_the_starting_port() {
    for start_port in [0u64, 4444, 9515, u64::MAX] {
        let mut config = quick();
        config.launch.start_port = start_port;
        let mut pipeline = SavePipeline::new(config);
        assert_eq!(pipeline.step(Event::Start), Action::SpawnDriver { port: start_port });
        assert_eq!(pipeline.step(Event::Done), Action::OpenSession { port: start_port });
    }
}

#[test]
fn the_first_wait_of_the_launcher_is_its_base() {
    for base_millis in [1u64, 100, 250, u64::MAX] {
        let mut config = quick();
        config.launch.retry.backoff = Backoff::Exponential { base_millis };
        let mut pipeline = SavePipeline::new(config);
        pipeline.step(Event::Start);
        assert_eq!(pipeline.step(Event::Failed), Action::Sleep { millis: base_millis });
    }
}

#[test]
fn the_launcher_never_exceeds_its_bound() {
    for max_attempts in 0..=20u8 {
        let mut config = quick();
        config.launch.retry =
            RetryPolicy { max_attempts, backoff: Backoff::Fixed { millis: 1 } };
        let (actions, result) = run(config, Fault::Spawn);
        assert_eq!(result, Err(SaveError::LaunchFailure));
        let spawned =
            actions.iter().filter(|action| matches!(action, Action::SpawnDriver { .. })).count();
        assert_eq!(spawned, max_attempts as usize);
        let slept = actions.iter().filter(|action| matches!(action, Action::Sleep { .. })).count();
        assert_eq!(slept, (max_attempts as usize).saturating_sub(1));
    }
}

#[test]
fn a_session_that_never_opens_is_a_connection_failure() {
    let (actions, result) = run(quick(), Fault::Session);
    assert_eq!(result, Err(SaveError::ConnectionFailure));
    assert_eq!(
        actions,
        vec![
            Action::SpawnDriver { port: 4444 },
            Action::OpenSession { port: 4444 },
            Action::Sleep { millis: 50 },
            Action::OpenSession { port: 4444 },
            Action::Sleep { millis: 50 },
            Action::OpenSession { port: 4444 },
            Action::Sleep { millis: 50 },
            Action::OpenSession { port: 4444 },
            Action::CloseHandle,
            Action::KillDriver,
            Action::Finish(Err(SaveError::ConnectionFailure)),
        ]
    );
}

#[test]
fn a_session_opens_at_the_attempt_at_which_the_driver_is_ready() {
    for ready_at in 1..=4usize {
        let mut pipeline = SavePipeline::new(quick());
        assert_eq!(pipeline.step(Event::Start), Action::SpawnDriver { port: 4444 });
        let mut action = pipeline.step(Event::Done);
        let mut asked = 0;
        loop {
            assert_eq!(action, Action::OpenSession { port: 4444 });
            asked += 1;
            if asked == ready_at {
                break;
            }
            assert_eq!(pipeline.step(Event::Failed), Action::Sleep { millis: 50 });
            action = pipeline.step(Event::Done);
        }
        assert_eq!(pipeline.stage(), Stage::Connecting { failures: (ready_at - 1) as u8, port: 4444 });
        assert_eq!(pipeline.step(Event::Done), Action::RenderPage);
        assert_eq!(pipeline.stage(), Stage::Rendering);
        assert_eq!(asked, ready_at);
    }
}

#[test]
fn a_driver_that_starts_late_is_used_on_its_port() {
    let mut pipeline = SavePipeline::new(quick());
    assert_eq!(pipeline.step(Event::Start), Action::SpawnDriver { port: 4444 });
    assert_eq!(pipeline.step(Event::Failed), Action::Sleep { millis: 100 });
    assert_eq!(pipeline.step(Event::Done), Action::SpawnDriver { port: 4445 });
    assert_eq!(pipeline.step(Event::Done), Action::OpenSession { port: 4445 });
}

#[test]
fn the_disclosure_element_is_waited_for() {
    let mut pipeline = SavePipeline::new(quick());
    pipeline.step(Event::Start);
    pipeline.step(Event::Done);
    pipeline.step(Event::Done);
    pipeline.step(Event::Text("/tmp/chart.html".to_string()));
    assert_eq!(pipeline.step(Event::Done), Action::Find(Target::Disclosure));
    assert_eq!(pipeline.step(Event::Failed), Action::Sleep { millis: 20 });
    assert_eq!(pipeline.step(Event::Done), Action::Find(Target::Disclosure));
    assert_eq!(pipeline.step(Event::Failed), Action::Sleep { millis: 20 });
    assert_eq!(pipeline.step(Event::Done), Action::Find(Target::Disclosure));
    assert_eq!(pipeline.step(Event::Done), Action::Click);
}

#[test]
fn each_failure_names_its_phase() {
    let cases = [
        (Fault::Spawn, SaveError::LaunchFailure),
        (Fault::Session, SaveError::ConnectionFailure),
        (Fault::Render, SaveError::IoFailure),
        (Fault::Navigate, SaveError::InteractionFailure(InteractionStep::Navigate)),
        (Fault::Disclosure, SaveError::InteractionFailure(InteractionStep::FindDisclosure)),
        (Fault::OpenDisclosure, SaveError::InteractionFailure(InteractionStep::OpenDisclosure)),
        (Fault::Link, SaveError::InteractionFailure(InteractionStep::FindLink)),
        (Fault::ClickLink, SaveError::InteractionFailure(InteractionStep::ClickLink)),
        (Fault::Relocate, SaveError::InteractionFailure(InteractionStep::RelocateLink)),
        (Fault::Target, SaveError::InteractionFailure(InteractionStep::ReadTarget)),
        (Fault::BadTarget, SaveError::DecodeFailure(DecodeFault::NotADataUrl)),
        (Fault::Write, SaveError::IoFailure),
    ];
    for (fault, error) in cases {
        let (_, result) = run(quick(), fault);
        assert_eq!(result, Err(error));
    }
}

#[test]
fn the_driver_is_killed_once_whatever_fails() {
    let faults = [
        Fault::Nothing,
        Fault::Spawn,
        Fault::Session,
        Fault::Render,
        Fault::Navigate,
        Fault::Disclosure,
        Fault::OpenDisclosure,
        Fault::Link,
        Fault::ClickLink,
        Fault::Relocate,
        Fault::Target,
        Fault::BadTarget,
        Fault::Write,
    ];
    for fault in faults {
        let (actions, result) = run(quick(), fault);
        assert_eq!(count(&actions, &Action::KillDriver), 1);
        assert_eq!(count(&actions, &Action::CloseHandle), 1);
        let n = actions.len();
        assert_eq!(actions[n - 3], Action::CloseHandle);
        assert_eq!(actions[n - 2], Action::KillDriver);
        assert_eq!(actions[n - 1], Action::Finish(result));
    }
}

#[test]
fn nothing_is_written_before_the_image_is_decoded() {
    let faults = [
        Fault::Spawn,
        Fault::Session,
        Fault::Render,
        Fault::Navigate,
        Fault::Disclosure,
        Fault::OpenDisclosure,
        Fault::Link,
        Fault::ClickLink,
        Fault::Relocate,
        Fault::Target,
        Fault::BadTarget,
    ];
    for fault in faults {
        let (actions, _) = run(quick(), fault);
        assert!(actions.iter().all(|action| !matches!(action, Action::WriteImage { .. })));
    }
}

#[test]
fn a_failed_release_does_not_change_the_result() {
    let mut pipeline = SavePipeline::new(quick());
    let mut event = Event::Start;
    loop {
        let action = pipeline.step(event);
        event = match action {
            Action::RenderPage => Event::Text("/tmp/chart.html".to_string()),
            Action::ReadTarget => Event::Text(PNG_URL.to_string()),
            Action::CloseHandle | Action::KillDriver => Event::Failed,
            Action::Finish(result) => {
                assert_eq!(result, Ok(()));
                break;
            }
            _ => Event::Done,
        };
    }
    assert_eq!(pipeline.stage(), Stage::Closed(Ok(())));
}

#[test]
fn a_closed_pipeline_stays_closed() {
    let (_, result) = run(quick(), Fault::Write);
    let mut pipeline = SavePipeline::new(quick());
    let mut event = Event::Start;
    loop {
        let action = pipeline.step(event);
        event = match action {
            Action::RenderPage => Event::Text("/tmp/chart.html".to_string()),
            Action::ReadTarget => Event::Text(PNG_URL.to_string()),
            Action::WriteImage { .. } => Event::Failed,
            Action::Finish(_) => break,
            _ => Event::Done,
        };
    }
    assert_eq!(pipeline.step(Event::Done), Action::Finish(result));
    assert_eq!(pipeline.step(Event::Start), Action::Finish(result));
    assert_eq!(pipeline.step(Event::Text("again".to_string())), Action::Finish(result));
    assert_eq!(pipeline.stage(), Stage::Closed(Err(SaveError::IoFailure)));
}

#[test]
fn no_run_is_longer_than_its_bound() {
    let config = quick();
    let bound = 15 + 2 * (3 + 4 + 3);
    for script in 0..4u32 {
        let mut pipeline = SavePipeline::new(config);
        let mut steps = 0;
        let mut action = pipeline.step(Event::Start);
        steps += 1;
        while !matches!(action, Action::Finish(_)) {
            let event = match (script, &action) {
                (0, _) => Event::Failed,
                (1, Action::Sleep { .. }) => Event::Done,
                (1, Action::SpawnDriver { .. }) => Event::Done,
                (1, _) => Event::Failed,
                (2, Action::RenderPage) => Event::Text("/tmp/chart.html".to_string()),
                (2, Action::Find(Target::Disclosure)) => Event::Failed,
                (2, _) => Event::Done,
                (_, Action::SpawnDriver { .. }) => Event::Failed,
                (_, _) => Event::Done,
            };
            action = pipeline.step(event);
            steps += 1;
            assert!(steps <= bound);
        }
    }
}

#[test]
fn an_answer_of_the_wrong_kind_is_a_failure() {
    let mut pipeline = SavePipeline::new(quick());
    assert_eq!(pipeline.step(Event::Start), Action::SpawnDriver { port: 4444 });
    assert_eq!(pipeline.step(Event::Done), Action::OpenSession { port: 4444 });
    assert_eq!(pipeline.step(Event::Done), Action::RenderPage);
    assert_eq!(pipeline.step(Event::Done), Action::CloseHandle);
    assert_eq!(pipeline.step(Event::Done), Action::KillDriver);
    assert_eq!(pipeline.step(Event::Done), Action::Finish(Err(SaveError::IoFailure)));
}

#[test]
fn the_page_is_loaded_from_a_file_url() {
    assert_eq!(page_url("/tmp/chart.html"), "file:///tmp/chart.html");
    assert_eq!(page_url(""), "file://");
    assert_eq!(page_url("/var/folders/chart 1.html"), "file:///var/folders/chart 1.html");
}

#[test]
fn the_elements_are_found_as_the_page_names_them() {
    assert_eq!(Target::Disclosure.locator(), Locator::Css);
    assert_eq!(Target::Disclosure.pattern(), "summary");
    assert_eq!(Target::ExportLink.locator(), Locator::LinkText);
    assert_eq!(Target::ExportLink.pattern(), "Save as PNG");
    assert_eq!(target_attribute(), "href");
}

#[test]
fn an_extracted_image_is_written_and_a_failure_winds_up() {
    assert_eq!(
        proceed_after_extraction(Ok(vec![1, 2, 3])),
        (Stage::Writing, Action::WriteImage { bytes: vec![1, 2, 3] })
    );
    assert_eq!(
        proceed_after_extraction(Err(SaveError::DecodeFailure(DecodeFault::InvalidBase64))),
        (
            Stage::ClosingHandle(Err(SaveError::DecodeFailure(DecodeFault::InvalidBase64))),
            Action::CloseHandle
        )
    );
}

#[test]
fn the_usual_configuration_is_the_documented_one() {
    let config = SaveConfig::standard();
    assert_eq!(config.launch, LaunchConfig::from_port(None));
    assert_eq!(
        config.connect,
        RetryPolicy { max_attempts: 5, backoff: Backoff::Fixed { millis: 100 } }
    );
    assert_eq!(
        config.poll,
        RetryPolicy { max_attempts: 100, backoff: Backoff::Fixed { millis: 100 } }
    );
    let pipeline = SavePipeline::new(config);
    assert_eq!(pipeline.config(), config);
    assert_eq!(pipeline.stage(), Stage::Idle);
    assert_eq!(pipeline.result(), None);
}

#[test]
fn a_pipeline_with_a_running_driver_begins_with_the_session() {
    let mut pipeline = SavePipeline::with_driver(quick(), 9515);
    assert_eq!(pipeline.stage(), Stage::ConnectBackoff { failures: 0, port: 9515 });
    assert_eq!(pipeline.step(Event::Start), Action::OpenSession { port: 9515 });
    assert_eq!(pipeline.step(Event::Failed), Action::Sleep { millis: 50 });
    assert_eq!(pipeline.step(Event::Done), Action::OpenSession { port: 9515 });
    assert_eq!(pipeline.step(Event::Done), Action::RenderPage);
}

#[test]
fn a_session_client_without_attempts_fails_at_once() {
    let mut config = quick();
    config.connect.max_attempts = 0;
    let (actions, result) = run(config, Fault::Nothing);
    assert_eq!(result, Err(SaveError::ConnectionFailure));
    assert_eq!(
        actions,
        vec![
            Action::SpawnDriver { port: 4444 },
            Action::CloseHandle,
            Action::KillDriver,
            Action::Finish(Err(SaveError::ConnectionFailure)),
        ]
    );
}

#[test]
fn a_link_that_does_not_decode_is_a_decode_failure() {
    let targets = [
        ("data:image/png;base64", DecodeFault::NoComma),
        ("data:image/png;base64,@@@@", DecodeFault::InvalidBase64),
        ("about:blank", DecodeFault::NotADataUrl),
    ];
    for (target, fault) in targets {
        let mut pipeline = SavePipeline::new(quick());
        let mut event = Event::Start;
        let result = loop {
            let action = pipeline.step(event);
            event = match action {
                Action::RenderPage => Event::Text("/tmp/chart.html".to_string()),
                Action::ReadTarget => Event::Text(target.to_string()),
                Action::WriteImage { .. } => panic!("nothing is to be written"),
                Action::Finish(result) => break result,
                _ => Event::Done,
            };
        };
        assert_eq!(result, Err(SaveError::DecodeFailure(fault)));
    }
}
