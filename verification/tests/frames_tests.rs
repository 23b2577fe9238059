use cek_debugger::executor::execute_program;
use cek_debugger::frames::{find_source_location, parse_raw_frames};
use cek_debugger::machine::cost_model::ExBudget;
use cek_debugger::machine::debug::{capture_snapshot, StepSnapshot};
use cek_debugger::machine::driver::MachineState;
use cek_debugger::machine::term::Term;
use cek_debugger::parser::parse_program;

fn snapshot(term: &str) -> StepSnapshot {
    let mut s = capture_snapshot(9, &MachineState::Done(Term::Error), &ExBudget { mem: 3, cpu: 4 });
    s.term = term.to_string();
    s
}

#[test]
fn source_location_in_a_text() {
    assert_eq!(find_source_location("at 12:validators/foo.ak now"), Some("12:validators/foo.ak".to_string()));
    assert_eq!(find_source_location("a:b.ak c:d.ak"), Some("a:b.ak".to_string()));
    assert_eq!(find_source_location("foo.ak x:y.ak"), Some("x:y.ak".to_string()));
    assert_eq!(find_source_location("\t x:y.ak\n"), Some("x:y.ak".to_string()));
    assert_eq!(find_source_location("validators/foo.ak:12"), None);
    assert_eq!(find_source_location("foo.ak"), None);
    assert_eq!(find_source_location("a:b"), None);
    assert_eq!(find_source_location("a: b.ak"), None);
    assert_eq!(find_source_location(""), None);
    assert_eq!(find_source_location(":.ak"), Some(":.ak".to_string()));
}

#[test]
fn frames_of_snapshots() {
    let snapshots = vec![snapshot("(con integer 1)"), snapshot("trace lib:util.ak end")];
    let frames = parse_raw_frames(&snapshots);
    assert_eq!(frames.len(), 2);
    assert_eq!(frames[0].step, 0);
    assert_eq!(frames[1].step, 1);
    assert_eq!(frames[0].term, "(con integer 1)");
    assert_eq!(frames[0].state_type, "Done");
    assert_eq!(frames[0].cpu, 4);
    assert_eq!(frames[0].mem, 3);
    assert_eq!(frames[0].context_depth, 0);
    assert_eq!(frames[0].source_location, None);
    assert_eq!(frames[1].source_location, Some("lib:util.ak".to_string()));
    assert!(parse_raw_frames(&vec![]).is_empty());
}

#[test]
fn frames_of_a_run() {
    let program = parse_program("(program 1.0.0 [(lam x x) (con integer 5)])").unwrap();
    let (snapshots, _) = execute_program(program).unwrap();
    let frames = parse_raw_frames(&snapshots);
    assert_eq!(frames.len(), snapshots.len());
    for (i, frame) in frames.iter().enumerate() {
        assert_eq!(frame.step, i);
        assert_eq!(frame.term, snapshots[i].term);
        assert_eq!(frame.state_type, snapshots[i].state_type);
        assert_eq!(frame.environment, snapshots[i].environment);
        assert_eq!(frame.context_depth, snapshots[i].context_depth);
        assert_eq!(frame.cpu, snapshots[i].cpu);
        assert_eq!(frame.mem, snapshots[i].mem);
        assert_eq!(frame.source_location, None);
    }
    assert_eq!(frames[5].environment, vec!["[0] (con integer 5)"]);
}
