//! Command selection and per-case file naming.
//!
//! Each test case reads its input from `input-<id>.txt` inside the
//! working directory, and the language kind of the request decides which
//! program the host spawns: the compiled binary `main` in the working
//! directory, a JVM launcher with the working directory on the classpath,
//! or the interpreter binary.

use vstd::prelude::*;

use crate::entity::LANG_JVM;
use crate::entity::LANG_NATIVE;

verus! {

/// The decimal digit character of a value below ten.
pub open spec fn digit_char(d: nat) -> char
    recommends
        d < 10,
{
    if d == 0 {
        '0'
    } else if d == 1 {
        '1'
    } else if d == 2 {
        '2'
    } else if d == 3 {
        '3'
    } else if d == 4 {
        '4'
    } else if d == 5 {
        '5'
    } else if d == 6 {
        '6'
    } else if d == 7 {
        '7'
    } else if d == 8 {
        '8'
    } else {
        '9'
    }
}

/// The usual decimal rendering of a natural number, most significant
/// digit first, without leading zeroes (a single `'0'` for zero).
pub open spec fn decimal_digits(n: nat) -> Seq<char>
    decreases n,
{
    if n < 10 {
        seq![digit_char(n)]
    } else {
        decimal_digits(n / 10).push(digit_char(n % 10))
    }
}

/// The one-character string of a decimal digit.
fn digit_str(d: u32) -> (r: &'static str)
    requires
        d < 10,
    ensures
        r@ == seq![digit_char(d as nat)],
{
    proof {
        reveal_strlit("0");
        reveal_strlit("1");
        reveal_strlit("2");
        reveal_strlit("3");
        reveal_strlit("4");
        reveal_strlit("5");
        reveal_strlit("6");
        reveal_strlit("7");
        reveal_strlit("8");
        reveal_strlit("9");
    }
    let r: &'static str = if d == 0 {
        "0"
    } else if d == 1 {
        "1"
    } else if d == 2 {
        "2"
    } else if d == 3 {
        "3"
    } else if d == 4 {
        "4"
    } else if d == 5 {
        "5"
    } else if d == 6 {
        "6"
    } else if d == 7 {
        "7"
    } else if d == 8 {
        "8"
    } else {
        "9"
    };
    proof {
        assert(r@ =~= seq![digit_char(d as nat)]);
    }
    r
}

/// Render a number in decimal.
pub fn u32_to_decimal(n: u32) -> (r: String)
    ensures
        r@ == decimal_digits(n as nat),
    decreases n,
{
    if n < 10 {
        digit_str(n).to_owned()
    } else {
        let mut s = u32_to_decimal(n / 10);
        s.append(digit_str(n % 10));
        proof {
            assert(s@ =~= decimal_digits(n as nat));
        }
        s
    }
}

/// The path of one test case's input file: `<file_dir>input-<id>.txt`.
/// The directory is taken as the caller hands it over, trailing separator
/// included, exactly as the rest of the system composes paths.
pub fn input_file_name(file_dir: &str, test_case_id: u32) -> (r: String)
    ensures
        r@ == file_dir@ + "input-"@ + decimal_digits(test_case_id as nat) + ".txt"@,
{
    let mut s = file_dir.to_owned();
    s.append("input-");
    let digits = u32_to_decimal(test_case_id);
    s.append(digits.as_str());
    s.append(".txt");
    proof {
        assert(s@ =~= file_dir@ + "input-"@ + decimal_digits(test_case_id as nat) + ".txt"@);
    }
    s
}

/// The program and arguments to spawn for a given language kind: the
/// compiled binary `main` inside the working directory for a native
/// submission, the JVM launcher with the working directory as classpath
/// and entry class `Main` for a JVM submission, and the interpreter
/// binary for everything else.
pub fn run_command_for(lang: u8, file_dir: &str) -> (r: (String, Vec<String>))
    ensures
        lang == LANG_NATIVE ==> r.0@ == file_dir@ + "main"@ && r.1@.len() == 0,
        lang == LANG_JVM ==> r.0@ == "java"@ && r.1@.len() == 3 && r.1@[0]@ == "-cp"@
            && r.1@[1]@ == file_dir@ && r.1@[2]@ == "Main"@,
        lang != LANG_NATIVE && lang != LANG_JVM ==> r.0@ == "python3"@ && r.1@.len() == 0,
{
    if lang == LANG_NATIVE {
        let mut program = file_dir.to_owned();
        program.append("main");
        (program, Vec::new())
    } else if lang == LANG_JVM {
        let mut args: Vec<String> = Vec::new();
        args.push("-cp".to_owned());
        args.push(file_dir.to_owned());
        args.push("Main".to_owned());
        ("java".to_owned(), args)
    } else {
        ("python3".to_owned(), Vec::new())
    }
}

} // verus!
