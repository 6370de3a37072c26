use prover::keydir::{reset_plan, EntryKind, FsOp};
use prover::paths::{join, ArtifactPaths};
use prover::stage::{Stage, StageOutcome};

#[test]
fn join_inserts_one_separator() {
    assert_eq!(join("proj", "target"), "proj/target");
    assert_eq!(join("proj/", "target"), "proj/target");
    assert_eq!(join("", "target"), "target");
}

#[test]
fn artifact_layout() {
    let p = ArtifactPaths::resolve("/work/circ", "apy");
    assert_eq!(p.output_dir, "/work/circ/target");
    assert_eq!(p.circuit, "/work/circ/target/apy.json");
    assert_eq!(p.witness, "/work/circ/target/apy.gz");
    assert_eq!(p.proof, "/work/circ/target/proof");
    assert_eq!(p.key_dir, "/work/circ/target/vk");
    assert_eq!(p.key_file, "/work/circ/target/vk/vk");
    assert_eq!(p.verifier, "/work/circ/target/Verifier.sol");
}

#[test]
fn artifact_layout_is_stable() {
    let a = ArtifactPaths::resolve("c", "n");
    let b = ArtifactPaths::resolve("c", "n");
    assert_eq!(a.proof, b.proof);
    assert_eq!(a.key_dir, b.key_dir);
    assert_eq!(a.verifier, b.verifier);
}

#[test]
fn reset_plans() {
    assert_eq!(reset_plan(EntryKind::Absent), vec![FsOp::CreateDirectory]);
    assert_eq!(reset_plan(EntryKind::Directory), vec![FsOp::RemoveDirectory, FsOp::CreateDirectory]);
    assert_eq!(reset_plan(EntryKind::File), vec![FsOp::RemoveFile, FsOp::CreateDirectory]);
}

#[test]
fn stage_commands() {
    let p = ArtifactPaths::resolve("c", "n");
    let e = Stage::Execute.command("c", "Prover", &p);
    assert_eq!(e.program, "nargo");
    assert_eq!(e.args, vec!["execute", "-p", "Prover"]);
    assert_eq!(e.working_dir, "c");
    let v = Stage::Prove.command("c", "Prover", &p);
    assert_eq!(v.program, "bb");
    assert_eq!(v.args, vec!["prove", "-b", "c/target/n.json", "-w", "c/target/n.gz", "-o", "c/target"]);
    let k = Stage::WriteKey.command("c", "Prover", &p);
    assert_eq!(k.args, vec!["write_vk", "-b", "c/target/n.json", "-o", "c/target/vk"]);
    let f = Stage::Verify.command("c", "Prover", &p);
    assert_eq!(f.args, vec!["verify", "-k", "c/target/vk/vk", "-p", "c/target/proof"]);
    let x = Stage::Export.command("c", "Prover", &p);
    assert_eq!(x.args, vec!["write_solidity_verifier", "-k", "c/target/vk/vk", "-o", "c/target/Verifier.sol"]);
    assert_eq!(Stage::Verify.name(), "bb verify");
}

#[test]
fn classify_outcomes() {
    assert!(matches!(StageOutcome::classify(true, "warning".to_string()), StageOutcome::Success));
    match StageOutcome::classify(false, "boom\n".to_string()) {
        StageOutcome::Failure { diagnostic } => assert_eq!(diagnostic, "boom\n"),
        StageOutcome::Success => panic!("non-zero exit must fail"),
    }
}
