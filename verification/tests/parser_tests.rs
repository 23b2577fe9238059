use cek_debugger::machine::term::{Constant, DefaultFunction, Term};
use cek_debugger::parser::{parse_program, ParseError};
use cek_debugger::program::Program;
use std::rc::Rc;

fn term_of(text: &str) -> Result<Term, ParseError> {
    parse_program(&format!("(program 1.0.0 {})", text)).map(|p| p.term)
}

fn integer(i: i128) -> Term {
    Term::Constant(Rc::new(Constant::Integer(i)))
}

fn lam(body: Term) -> Term {
    Term::Lambda(Rc::new(body))
}

fn apply(f: Term, a: Term) -> Term {
    Term::Apply(Rc::new(f), Rc::new(a))
}

#[test]
fn program_with_version() {
    let program = parse_program("(program 1.0.0 (con integer 42))").unwrap();
    assert_eq!(program, Program { version: (1, 0, 0), term: integer(42) });
    let program = parse_program("  (  program\n 11.22.33\t(error) )  \n").unwrap();
    assert_eq!(program, Program { version: (11, 22, 33), term: Term::Error });
}

#[test]
fn names_are_resolved_to_indices() {
    assert_eq!(term_of("(lam x x)"), Ok(lam(Term::Var(0))));
    assert_eq!(term_of("(lam x (lam y x))"), Ok(lam(lam(Term::Var(1)))));
    assert_eq!(term_of("(lam x (lam y y))"), Ok(lam(lam(Term::Var(0)))));
    assert_eq!(term_of("(lam x (lam x x))"), Ok(lam(lam(Term::Var(0)))));
    assert_eq!(term_of("(lam x [(lam y y) x])"), Ok(lam(apply(lam(Term::Var(0)), Term::Var(0)))));
    assert_eq!(term_of("(lam x' (lam x_1 x'))"), Ok(lam(lam(Term::Var(1)))));
    assert_eq!(term_of("x"), Err(ParseError::Syntax));
    assert_eq!(term_of("(lam x y)"), Err(ParseError::Syntax));
}

#[test]
fn a_free_name_may_spell_its_index() {
    assert_eq!(term_of("i_3"), Ok(Term::Var(3)));
    assert_eq!(term_of("(lam i_0 i_1)"), Ok(lam(Term::Var(1))));
    assert_eq!(term_of("(lam i_0 i_0)"), Ok(lam(Term::Var(0))));
    assert_eq!(term_of("(lam i_1 i_1)"), Ok(lam(Term::Var(0))));
    assert_eq!(term_of("i_"), Err(ParseError::Syntax));
    assert_eq!(term_of("i_x"), Err(ParseError::Syntax));
    assert_eq!(term_of("i_99999999999999999999999999"), Err(ParseError::Syntax));
}

#[test]
fn applications() {
    assert_eq!(
        term_of("[(lam x x) (con integer 5)]"),
        Ok(apply(lam(Term::Var(0)), integer(5)))
    );
    assert_eq!(
        term_of("[ (builtin addInteger) (con integer 1) (con integer 2) ]"),
        Ok(apply(apply(Term::Builtin(DefaultFunction::AddInteger), integer(1)), integer(2)))
    );
    assert_eq!(term_of("[(con integer 1)]"), Err(ParseError::Syntax));
    assert_eq!(term_of("[]"), Err(ParseError::Syntax));
    assert_eq!(term_of("[(con integer 1) (con integer 2)"), Err(ParseError::Syntax));
}

#[test]
fn constants() {
    assert_eq!(term_of("(con integer 0)"), Ok(integer(0)));
    assert_eq!(term_of("(con integer -12)"), Ok(integer(-12)));
    assert_eq!(term_of("(con integer +12)"), Ok(integer(12)));
    assert_eq!(term_of("(con integer 007)"), Ok(integer(7)));
    assert_eq!(
        term_of("(con integer 170141183460469231731687303715884105727)"),
        Ok(integer(i128::MAX))
    );
    assert_eq!(
        term_of("(con integer -170141183460469231731687303715884105728)"),
        Ok(integer(i128::MIN))
    );
    assert_eq!(
        term_of("(con integer 170141183460469231731687303715884105728)"),
        Err(ParseError::Syntax)
    );
    assert_eq!(
        term_of("(con integer -170141183460469231731687303715884105729)"),
        Err(ParseError::Syntax)
    );
    assert_eq!(term_of("(con integer)"), Err(ParseError::Syntax));
    assert_eq!(term_of("(con integer 1x)"), Err(ParseError::Syntax));
    assert_eq!(term_of("(con integer - 1)"), Err(ParseError::Syntax));
    assert_eq!(
        term_of("(con bytestring #00aBff)"),
        Ok(Term::Constant(Rc::new(Constant::ByteString(vec![0, 0xab, 0xff]))))
    );
    assert_eq!(
        term_of("(con bytestring #)"),
        Ok(Term::Constant(Rc::new(Constant::ByteString(vec![]))))
    );
    assert_eq!(term_of("(con bytestring #abc)"), Err(ParseError::Syntax));
    assert_eq!(term_of("(con bytestring #zz)"), Err(ParseError::Syntax));
    assert_eq!(term_of("(con bytestring 00)"), Err(ParseError::Syntax));
    assert_eq!(
        term_of("(con data #d87980)"),
        Ok(Term::Constant(Rc::new(Constant::Data(vec![0xd8, 0x79, 0x80]))))
    );
    assert_eq!(term_of("(con bool True)"), Ok(Term::Constant(Rc::new(Constant::Bool(true)))));
    assert_eq!(term_of("(con bool False)"), Ok(Term::Constant(Rc::new(Constant::Bool(false)))));
    assert_eq!(term_of("(con bool true)"), Err(ParseError::Syntax));
    assert_eq!(term_of("(con unit ())"), Ok(Term::Constant(Rc::new(Constant::Unit))));
    assert_eq!(term_of("(con unit)"), Err(ParseError::Syntax));
    assert_eq!(term_of("(con string x)"), Err(ParseError::Syntax));
}

#[test]
fn other_forms() {
    assert_eq!(term_of("(delay (error))"), Ok(Term::Delay(Rc::new(Term::Error))));
    assert_eq!(term_of("(force (error))"), Ok(Term::Force(Rc::new(Term::Error))));
    assert_eq!(term_of("(error)"), Ok(Term::Error));
    assert_eq!(
        term_of("(builtin ifThenElse)"),
        Ok(Term::Builtin(DefaultFunction::IfThenElse))
    );
    assert_eq!(term_of("(builtin sha2_256)"), Err(ParseError::Syntax));
    assert_eq!(term_of("(constr 0)"), Ok(Term::Constr(0, Rc::new(vec![]))));
    assert_eq!(
        term_of("(constr 3 (error) (con integer 1))"),
        Ok(Term::Constr(3, Rc::new(vec![Term::Error, integer(1)])))
    );
    assert_eq!(term_of("(constr (error))"), Err(ParseError::Syntax));
    assert_eq!(
        term_of("(case (constr 0) (error) (lam x x))"),
        Ok(Term::Case(
            Rc::new(Term::Constr(0, Rc::new(vec![]))),
            Rc::new(vec![Term::Error, lam(Term::Var(0))])
        ))
    );
    assert_eq!(term_of("(case)"), Err(ParseError::Syntax));
    assert_eq!(term_of("(frobnicate x)"), Err(ParseError::Syntax));
}

#[test]
fn what_is_not_a_program() {
    assert_eq!(parse_program(""), Err(ParseError::Syntax));
    assert_eq!(parse_program("(con integer 1)"), Err(ParseError::Syntax));
    assert_eq!(parse_program("(program 1.0 (error))"), Err(ParseError::Syntax));
    assert_eq!(parse_program("(program 1.0.0.0 (error))"), Err(ParseError::Syntax));
    assert_eq!(parse_program("(program 1. 0.0 (error))"), Err(ParseError::Syntax));
    assert_eq!(parse_program("(program 1.0.0 (error)"), Err(ParseError::Syntax));
    assert_eq!(parse_program("(program 1.0.0 (error)) x"), Err(ParseError::Syntax));
    assert_eq!(parse_program("(program 1.0.0)"), Err(ParseError::Syntax));
    assert_eq!(parse_program("(programme 1.0.0 (error))"), Err(ParseError::Syntax));
    assert_eq!(parse_program("(program 1.0.0 (lam x))"), Err(ParseError::Syntax));
    assert_eq!(parse_program("(program 1.0.0 (delay))"), Err(ParseError::Syntax));
}

#[test]
fn terms_nest_up_to_a_limit() {
    let brackets = |depth: usize| {
        format!("(program 1.0.0 {}(error){})", "[".repeat(depth), " (error)]".repeat(depth))
    };
    // A bracket takes one level for its first term and two for the others, and the
    // error term takes two: one for the term and one for its keyword.
    let deepest = parse_program(&brackets(1021)).unwrap();
    let mut term = &deepest.term;
    let mut levels = 0;
    while let Term::Apply(function, _) = term {
        term = function;
        levels += 1;
    }
    assert_eq!(levels, 1021);
    assert_eq!(parse_program(&brackets(1022)), Err(ParseError::Syntax));
    // A parenthesis takes two levels.
    let delays = |depth: usize| {
        format!("(program 1.0.0 {}(error){})", "(delay ".repeat(depth), ")".repeat(depth))
    };
    assert!(parse_program(&delays(511)).is_ok());
    assert_eq!(parse_program(&delays(512)), Err(ParseError::Syntax));
    let open = format!("(program 1.0.0 {}", "[".repeat(500_000));
    assert_eq!(parse_program(&open), Err(ParseError::Syntax));
    let open = format!("(program 1.0.0 {}", "(force ".repeat(500_000));
    assert_eq!(parse_program(&open), Err(ParseError::Syntax));
}

#[test]
fn a_list_may_be_longer_than_terms_may_nest() {
    let fields = " (con integer 1)".repeat(5000);
    let term = term_of(&format!("(constr 0{})", fields)).unwrap();
    match term {
        Term::Constr(0, fields) => {
            assert_eq!(fields.len(), 5000);
            assert!(fields.iter().all(|f| f == &integer(1)));
        }
        other => panic!("{:?}", other),
    }
    let arguments = " i_0".repeat(3000);
    let term = term_of(&format!("[(error){}]", arguments)).unwrap();
    let mut term = &term;
    let mut count = 0;
    while let Term::Apply(function, argument) = term {
        assert_eq!(**argument, Term::Var(0));
        term = function;
        count += 1;
    }
    assert_eq!(count, 3000);
}

#[test]
fn the_text_of_a_program_reads_back() {
    let terms = vec![
        integer(-5),
        lam(lam(Term::Var(1))),
        lam(Term::Var(7)),
        apply(apply(Term::Builtin(DefaultFunction::EqualsByteString), integer(1)), Term::Error),
        Term::Constr(2, Rc::new(vec![Term::Delay(Rc::new(Term::Var(0))), Term::Error])),
        Term::Case(Rc::new(Term::Var(2)), Rc::new(vec![])),
        Term::Force(Rc::new(Term::Constant(Rc::new(Constant::ByteString(vec![1, 2, 250]))))),
        Term::Constant(Rc::new(Constant::Unit)),
        Term::Constant(Rc::new(Constant::Bool(false))),
        Term::Constant(Rc::new(Constant::Data(vec![0x01]))),
    ];
    for term in terms {
        let program = Program { version: (1, 1, 0), term };
        assert_eq!(parse_program(&program.to_string()), Ok(program));
    }
}
