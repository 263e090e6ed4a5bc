use vstd::prelude::*;
use vstd::string::StringExecFns;
use crate::error::ModelPart;
use rand::RngCore;

verus! {

/// Relies on `RngCore::try_fill_bytes` of rand's `OsRng`: it fills the buffer
/// from the operating system's random source, or returns an error, and does
/// not panic. Nothing is promised of which value is drawn.
#[verifier::external_body]
fn draw_random_id() -> (r: Option<u64>) {
    let mut bytes = [0u8; 8];
    match rand::rngs::OsRng.try_fill_bytes(&mut bytes) {
        Ok(()) => Some(u64::from_le_bytes(bytes)),
        Err(_) => None,
    }
}

/// The character of a decimal digit.
pub open spec fn digit_char(d: nat) -> char {
    seq!['0', '1', '2', '3', '4', '5', '6', '7', '8', '9'][d as int]
}

/// The decimal notation of a natural number, without leading zeros.
pub open spec fn decimal(n: nat) -> Seq<char>
    decreases n,
{
    if n < 10 {
        seq![digit_char(n)]
    } else {
        decimal(n / 10).push(digit_char(n % 10))
    }
}

/// The shared directory that temporary files are written to.
pub open spec fn temp_dir() -> Seq<char> {
    seq!['/', 't', 'm', 'p', '/']
}

/// The file suffix that marks which part a temporary file holds.
pub open spec fn part_suffix(part: ModelPart) -> Seq<char> {
    match part {
        ModelPart::Param => seq!['.', 'p', 'a', 'r', 'a', 'm'],
        ModelPart::Model => seq!['.', 'm', 'o', 'd', 'e', 'l'],
    }
}

/// The temporary file that a buffer-mode load with identifier `id` uses.
pub open spec fn temp_path(part: ModelPart, id: nat) -> Seq<char> {
    temp_dir() + decimal(id) + part_suffix(part)
}

fn digit_str(d: u64) -> (r: &'static str)
    requires
        d < 10,
    ensures
        r@ == seq![digit_char(d as nat)],
{
    if d == 0 {
        proof { reveal_strlit("0"); }
        "0"
    } else if d == 1 {
        proof { reveal_strlit("1"); }
        "1"
    } else if d == 2 {
        proof { reveal_strlit("2"); }
        "2"
    } else if d == 3 {
        proof { reveal_strlit("3"); }
        "3"
    } else if d == 4 {
        proof { reveal_strlit("4"); }
        "4"
    } else if d == 5 {
        proof { reveal_strlit("5"); }
        "5"
    } else if d == 6 {
        proof { reveal_strlit("6"); }
        "6"
    } else if d == 7 {
        proof { reveal_strlit("7"); }
        "7"
    } else if d == 8 {
        proof { reveal_strlit("8"); }
        "8"
    } else {
        proof { reveal_strlit("9"); }
        "9"
    }
}

fn append_decimal(s: &mut String, n: u64)
    ensures
        final(s)@ == old(s)@ + decimal(n as nat),
    decreases n,
{
    if n >= 10 {
        append_decimal(s, n / 10);
    }
    s.append(digit_str(n % 10));
    assert(s@ =~= old(s)@ + decimal(n as nat));
}

/// The name of the temporary file for a buffer-mode load of `part` with the
/// given identifier: the shared directory, the identifier in decimal, and the
/// part's suffix.
pub fn temp_file_name(part: ModelPart, id: u64) -> (r: String)
    ensures
        r@ == temp_path(part, id as nat),
{
    proof { reveal_strlit("/tmp/"); }
    let mut s = String::from_str("/tmp/");
    append_decimal(&mut s, id);
    match part {
        ModelPart::Param => {
            proof { reveal_strlit(".param"); }
            s.append(".param");
        },
        ModelPart::Model => {
            proof { reveal_strlit(".model"); }
            s.append(".model");
        },
    }
    assert(s@ =~= temp_path(part, id as nat));
    s
}

/// A fresh temporary file name for a buffer-mode load of `part`, with a
/// 64-bit identifier drawn from the operating system's random source; `None`
/// when that source cannot be read.
pub fn fresh_temp_file_name(part: ModelPart) -> (r: Option<String>)
    ensures
        r matches Some(name) ==> exists|id: u64| name@ == temp_path(part, id as nat),
{
    match draw_random_id() {
        Some(id) => Some(temp_file_name(part, id)),
        None => None,
    }
}

} // verus!
