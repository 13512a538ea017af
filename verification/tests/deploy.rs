use plc_node::deploy::{DeployAction, DeployStage, Deployment};

#[test]
fn all_steps_succeed_in_order() {
    let mut d = Deployment::new("/app/program.zip".to_string());
    assert_eq!(d.current_action(), DeployAction::CreateUser);
    assert_eq!(d.step_done(true), DeployAction::Login);
    assert_eq!(d.step_done(true), DeployAction::ReadProgramZip("/app/program.zip".to_string()));
    assert_eq!(d.program_read(vec![0x50, 0x4b, 3, 4]), DeployAction::UploadProgram(vec![0x50, 0x4b, 3, 4]));
    assert_eq!(d.current_action(), DeployAction::UploadProgram(vec![0x50, 0x4b, 3, 4]));
    assert_eq!(
        d.step_done(true),
        DeployAction::WaitForCompilation { poll_interval_secs: 2, timeout_secs: 120 }
    );
    assert_eq!(d.step_done(true), DeployAction::StartPlc);
    assert_eq!(d.step_done(true), DeployAction::Succeeded);
    assert_eq!(d.stage, DeployStage::Succeeded);
}

fn advance(d: &mut Deployment, steps: usize) {
    for _ in 0..steps {
        if d.stage == DeployStage::ReadProgram {
            d.program_read(vec![1, 2, 3]);
        } else {
            d.step_done(true);
        }
    }
}

#[test]
fn failure_stops_with_step_context() {
    let expected = [
        "user setup failed",
        "authentication failed",
        "failed to read program zip at '/data/p.zip'",
        "program upload failed",
        "compilation failed",
        "failed to start PLC",
    ];
    for (k, ctx) in expected.iter().enumerate() {
        let mut d = Deployment::new("/data/p.zip".to_string());
        advance(&mut d, k);
        assert_eq!(d.step_done(false), DeployAction::Failed(ctx.to_string()));
        assert_eq!(d.stage, DeployStage::Failed);
    }
}
