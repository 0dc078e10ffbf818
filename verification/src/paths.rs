//! Naming rules for the files the application keeps in its data directory:
//! the daemon control socket, its staging name, and the temporary and
//! backup siblings of JSON documents.

use vstd::prelude::*;

verus! {

/// Control socket name inside the data directory.
pub const SOCKET_NAME: &'static str = "ratatube.sock";
/// Best-effort pid record; the socket itself is the lock.
pub const PID_FILE_NAME: &'static str = "daemon.pid";

/// Locations the application stores its data in.
pub struct AppPaths {
    /// Data directory; documents and the control socket live here.
    pub data_dir: String,
}

/// `dir` joined with a relative `name`: a separator is inserted unless
/// `dir` is empty or already ends with one.
pub open spec fn join_name(dir: Seq<char>, name: Seq<char>) -> Seq<char> {
    if dir.len() == 0 || dir.last() == '/' {
        dir + name
    } else {
        dir + seq!['/'] + name
    }
}

/// Join a relative file name onto a directory path.
pub fn join(dir: &str, name: &str) -> (joined: String)
    ensures
        joined@ == join_name(dir@, name@),
{
    let n = dir.unicode_len();
    if n == 0 || dir.get_char(n - 1) == '/' {
        String::from_str(dir).concat(name)
    } else {
        proof {
            reveal_strlit("/");
        }
        String::from_str(dir).concat("/").concat(name)
    }
}

/// Path of the daemon control socket for a data directory.
pub fn socket_path(paths: &AppPaths) -> (socket: String)
    ensures
        socket@ == join_name(paths.data_dir@, SOCKET_NAME@),
{
    join(paths.data_dir.as_str(), SOCKET_NAME)
}

/// Path of the daemon pid record for a data directory.
pub fn pid_file_path(paths: &AppPaths) -> (pid_file: String)
    ensures
        pid_file@ == join_name(paths.data_dir@, PID_FILE_NAME@),
{
    join(paths.data_dir.as_str(), PID_FILE_NAME)
}

/// Sibling written before an atomic rename over `path`.
pub fn tmp_path(path: &str) -> (tmp: String)
    ensures
        tmp@ == path@ + ".tmp"@,
{
    String::from_str(path).concat(".tmp")
}

/// Sibling a malformed document is copied to for recovery.
pub fn backup_path(path: &str) -> (backup: String)
    ensures
        backup@ == path@ + ".bak"@,
{
    String::from_str(path).concat(".bak")
}

/// Lower-case hexadecimal digit of a value below 16.
pub open spec fn hex_char(d: nat) -> char {
    if d < 10 {
        ('0' as nat + d) as char
    } else {
        ('a' as nat + (d - 10)) as char
    }
}

/// Lower-case hexadecimal digits of `n`, without leading zeros ("0" for zero).
pub open spec fn hex_digits(n: nat) -> Seq<char>
    decreases n,
{
    if n < 16 {
        seq![hex_char(n)]
    } else {
        hex_digits(n / 16).push(hex_char(n % 16))
    }
}

/// One hexadecimal digit as text.
fn hex_digit_text(d: u32) -> (text: &'static str)
    requires
        d < 16,
    ensures
        text@ == seq![hex_char(d as nat)],
{
    proof {
        reveal_strlit("0");
        reveal_strlit("1");
        reveal_strlit("2");
        reveal_strlit("3");
        reveal_strlit("4");
        reveal_strlit("5");
        reveal_strlit("6");
        reveal_strlit("7");
        reveal_strlit("8");
        reveal_strlit("9");
        reveal_strlit("a");
        reveal_strlit("b");
        reveal_strlit("c");
        reveal_strlit("d");
        reveal_strlit("e");
        reveal_strlit("f");
    }
    if d == 0 {
        "0"
    } else if d == 1 {
        "1"
    } else if d == 2 {
        "2"
    } else if d == 3 {
        "3"
    } else if d == 4 {
        "4"
    } else if d == 5 {
        "5"
    } else if d == 6 {
        "6"
    } else if d == 7 {
        "7"
    } else if d == 8 {
        "8"
    } else if d == 9 {
        "9"
    } else if d == 10 {
        "a"
    } else if d == 11 {
        "b"
    } else if d == 12 {
        "c"
    } else if d == 13 {
        "d"
    } else if d == 14 {
        "e"
    } else {
        "f"
    }
}

/// Append the hexadecimal digits of `n`.
fn append_hex(out: &mut String, n: u32)
    ensures
        final(out)@ == old(out)@ + hex_digits(n as nat),
    decreases n,
{
    if n >= 16 {
        append_hex(out, n / 16);
    }
    out.append(hex_digit_text(n % 16));
    proof {
        if n >= 16 {
            assert(old(out)@ + hex_digits(n as nat / 16) + seq![hex_char(n as nat % 16)] =~= old(out)@
                + hex_digits(n as nat));
        } else {
            assert(old(out)@ + seq![hex_char(n as nat % 16)] =~= old(out)@ + hex_digits(n as nat));
        }
    }
}

/// Staging name for a socket about to be published: a dot and the process
/// id in hexadecimal, so two daemons racing on one data directory cannot share it.
pub fn staging_name(pid: u32) -> (name: String)
    ensures
        name@ == seq!['.'] + hex_digits(pid as nat),
{
    proof {
        reveal_strlit(".");
    }
    let mut name = String::from_str(".");
    append_hex(&mut name, pid);
    name
}

/// Sixteen to the power `k`.
pub open spec fn pow16(k: nat) -> nat
    decreases k,
{
    if k == 0 {
        1
    } else {
        16 * pow16((k - 1) as nat)
    }
}

/// A value below `16^k` has at most `k` hexadecimal digits.
proof fn lemma_hex_digits_len(n: nat, k: nat)
    requires
        n < pow16(k),
        k >= 1,
    ensures
        hex_digits(n).len() <= k,
    decreases k,
{
    if n >= 16 {
        if k == 1 {
            assert(pow16(0) == 1);
        } else {
            let smaller = pow16((k - 1) as nat);
            assert(n / 16 < smaller) by (nonlinear_arith)
                requires n < 16 * smaller;
            lemma_hex_digits_len(n / 16, (k - 1) as nat);
        }
    }
}

/// The staging name is never longer than the published socket name, so a
/// data directory whose socket path fits the socket path limit also fits
/// its staging path.
pub proof fn lemma_staging_name_fits(pid: u32)
    ensures
        (seq!['.'] + hex_digits(pid as nat)).len() <= SOCKET_NAME@.len(),
{
    reveal_strlit("ratatube.sock");
    reveal_with_fuel(pow16, 9);
    assert(pow16(8) == 0x1_0000_0000);
    lemma_hex_digits_len(pid as nat, 8);
}

/// Largest JSON document the store will read or write (16 MiB).
pub const MAX_DOCUMENT_BYTES: usize = 16 * 1024 * 1024;

/// Whether a document of `len` bytes may be read or written.
pub fn document_within_limit(len: u64) -> (ok: bool)
    ensures
        ok == (len <= MAX_DOCUMENT_BYTES),
{
    len <= MAX_DOCUMENT_BYTES as u64
}

} // verus!
