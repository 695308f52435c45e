//! Log lines: `<local time> | <owner, right-aligned to 16> | <message>`, and
//! the names that workers log under.
use vstd::prelude::*;

verus! {

/// Width that an owner name is padded to.
pub const OWNER_WIDTH: usize = 16;

/// How a text is to be written to a file.
#[derive(Clone, Copy, PartialEq, Eq, Structural, Debug)]
pub enum WriteMode {
    /// Create the file, or empty an existing one, then write.
    CreateOrTruncate,
    /// Append to the file, creating it if needed.
    AlwaysAppend,
}

/// A text to be written to a file.
pub struct LogWrite {
    pub path: String,
    pub text: String,
    pub mode: WriteMode,
}

/// Whether the log file at a path must be (re)created before logging starts,
/// given whether it already exists: when it does not, or when an existing
/// one is to be removed. `Some` holds the write that empties it.
pub fn initialize_log_file(file_exists: bool, remove_existing_file: bool) -> (r: Option<WriteMode>)
    ensures
        r is Some <==> (!file_exists || remove_existing_file),
        r matches Some(m) ==> m == WriteMode::CreateOrTruncate,
{
    if !file_exists || remove_existing_file {
        Some(WriteMode::CreateOrTruncate)
    } else {
        None
    }
}

pub open spec fn spaces(k: nat) -> Seq<char> {
    Seq::new(k, |i: int| ' ')
}

/// The owner column: right-aligned to `OWNER_WIDTH` bytes when shorter.
pub open spec fn owner_column(owner: &str) -> Seq<char> {
    if owner.len() < OWNER_WIDTH {
        spaces((OWNER_WIDTH - owner.len()) as nat) + owner@
    } else {
        owner@
    }
}

/// The full log line.
pub open spec fn log_line_text(time: Seq<char>, owner: &str, msg: Seq<char>) -> Seq<char> {
    time + " | "@ + owner_column(owner) + " | "@ + msg + "\n"@
}

/// The log line for `msg` from `owner`, stamped with `time`.
pub fn log_line(time: &str, owner: &str, msg: &str) -> (r: String)
    ensures
        r@ == log_line_text(time@, owner, msg@),
{
    let mut r = String::from_str(time);
    r.append(" | ");
    let ghost head = r@;
    let len = owner.len();
    if len < OWNER_WIDTH {
        let mut i: usize = 0;
        let ghost base = r@;
        while i < OWNER_WIDTH - len
            invariant
                len < OWNER_WIDTH,
                i <= OWNER_WIDTH - len,
                r@ == base + spaces(i as nat),
            decreases OWNER_WIDTH - len - i,
        {
            r.append(" ");
            proof {
                reveal_strlit(" ");
            }
            i += 1;
            assert(r@ =~= base + spaces(i as nat));
        }
    }
    assert(r@ =~= head + owner_column(owner).take(owner_column(owner).len() - owner@.len()));
    r.append(owner);
    assert(r@ =~= head + owner_column(owner));
    r.append(" | ");
    r.append(msg);
    r.append("\n");
    assert(r@ =~= log_line_text(time@, owner, msg@));
    r
}

/// Relies on chrono's `Local::now` and `DateTime::to_rfc2822`: the local time
/// now as RFC 2822 text. Nothing is known of the text.
#[verifier::external_body]
fn rfc2822_now() -> (r: String) {
    chrono::offset::Local::now().to_rfc2822()
}

/// The append that logs `msg` from `owner` at the current local time, when a
/// log file is configured.
pub fn write_log(path: Option<String>, owner: &str, msg: &str) -> (r: Option<LogWrite>)
    ensures
        r is Some <==> path is Some,
        r matches Some(w) ==> {
            &&& w.path@ == path->Some_0@
            &&& w.mode == WriteMode::AlwaysAppend
            &&& exists|time: Seq<char>| w.text@ == log_line_text(time, owner, msg@)
        },
{
    match path {
        Some(p) => {
            let time = rfc2822_now();
            let text = log_line(time.as_str(), owner, msg);
            Some(LogWrite { path: p, text, mode: WriteMode::AlwaysAppend })
        },
        None => None,
    }
}

/// Lower-case hexadecimal digit.
pub open spec fn hex_char(d: nat) -> char {
    if d < 10 { (('0' as u8) + d) as char } else { (('a' as u8) + d - 10) as char }
}

/// `v` in lower-case hexadecimal, without leading zeros.
pub open spec fn hex_text(v: nat) -> Seq<char>
    decreases v,
{
    if v < 16 {
        seq![hex_char(v)]
    } else {
        hex_text(v / 16) + seq![hex_char(v % 16)]
    }
}

/// Mask that keeps the low 28 bits of a worker's random id.
pub const WORKER_ID_MASK: u32 = 0xfff_ffff;

/// The name a worker logs under: `worker-` and the low 28 bits of `id` in hex.
pub open spec fn worker_name_text(id: u32) -> Seq<char> {
    "worker-"@ + hex_text((id & WORKER_ID_MASK) as nat)
}

fn hex_digit(d: u32) -> (r: &'static str)
    requires
        d < 16,
    ensures
        r@ == seq![hex_char(d as nat)],
{
    proof {
        reveal_strlit("0");
        reveal_strlit("1");
        reveal_strlit("2");
        reveal_strlit("3");
        reveal_strlit("4");
        reveal_strlit("5");
        reveal_strlit("6");
        reveal_strlit("7");
        reveal_strlit("8");
        reveal_strlit("9");
        reveal_strlit("a");
        reveal_strlit("b");
        reveal_strlit("c");
        reveal_strlit("d");
        reveal_strlit("e");
        reveal_strlit("f");
    }
    let r = match d {
        0 => "0",
        1 => "1",
        2 => "2",
        3 => "3",
        4 => "4",
        5 => "5",
        6 => "6",
        7 => "7",
        8 => "8",
        9 => "9",
        10 => "a",
        11 => "b",
        12 => "c",
        13 => "d",
        14 => "e",
        _ => "f",
    };
    assert(r@ =~= seq![hex_char(d as nat)]);
    r
}

/// Appends `v` in hexadecimal.
fn push_hex(out: &mut String, v: u32)
    ensures
        final(out)@ == old(out)@ + hex_text(v as nat),
    decreases v,
{
    if v >= 16 {
        push_hex(out, v / 16);
    }
    out.append(hex_digit(v % 16));
}

/// The log name of a worker with random id `id`.
pub fn worker_name(id: u32) -> (r: String)
    ensures
        r@ == worker_name_text(id),
{
    let mut r = String::from_str("worker-");
    push_hex(&mut r, id & WORKER_ID_MASK);
    r
}

/// A fresh name for a worker, from a random id.
pub fn new_worker_name() -> (r: String)
    ensures
        exists|id: u32| r@ == worker_name_text(id),
{
    let id: u32 = rand::random::<u32>();
    worker_name(id)
}

/// Relies on rand's `random`: a value drawn from the thread-local generator.
/// Nothing is known of the value.
pub assume_specification<T>[ rand::random::<T> ]() -> (r: T)
    where
        rand::distributions::Standard: rand::distributions::Distribution<T>,
;

} // verus!
