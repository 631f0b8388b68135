use vstd::prelude::*;
use vstd::string::StringExecFns;
use crate::decimal::{
    decimal, decimal_value, is_numeral, is_signed_numeral, lemma_numeral_reads_back,
    lemma_signed_numeral_reads_back, push_signed, push_unsigned, signed_decimal, signed_value,
};

verus! {

/// How long the server has run at time `now`, when it started at `start_time` (both in
/// seconds since the epoch).
pub fn running_time(start_time: i64, now: i64) -> (elapsed: i64)
    requires
        i64::MIN <= now - start_time <= i64::MAX,
    ensures
        elapsed == now - start_time,
{
    now - start_time
}

/// How the server's state is shown, given how its load averages are shown.
pub open spec fn state_text(pid: nat, uid: nat, gid: nat, running_time: int, loadavg: Seq<char>) -> Seq<
    char,
> {
    "Current state is: pid = "@ + decimal(pid) + ", uid = "@ + decimal(uid) + ", gid = "@ + decimal(
        gid,
    ) + ", running_time = "@ + signed_decimal(running_time) + ", loadavg = "@ + loadavg
}

/// The text of the state is its fixed labels with a numeral after each: reading the numerals
/// back gives the pid, the uid, the gid and the running time in full, and the load averages
/// follow as they were given.
pub proof fn lemma_state_text_reads_back(
    pid: u32,
    uid: u32,
    gid: u32,
    running_time: i64,
    loadavg: Seq<char>,
)
    ensures
        exists|p: Seq<char>, u: Seq<char>, g: Seq<char>, r: Seq<char>|
            #![trigger is_numeral(p), is_numeral(u), is_numeral(g), is_signed_numeral(r)]
            {
                &&& is_numeral(p) && decimal_value(p) == pid
                &&& is_numeral(u) && decimal_value(u) == uid
                &&& is_numeral(g) && decimal_value(g) == gid
                &&& is_signed_numeral(r) && signed_value(r) == running_time
                &&& state_text(pid as nat, uid as nat, gid as nat, running_time as int, loadavg)
                    == "Current state is: pid = "@ + p + ", uid = "@ + u + ", gid = "@ + g
                    + ", running_time = "@ + r + ", loadavg = "@ + loadavg
            },
{
    let p = decimal(pid as nat);
    let u = decimal(uid as nat);
    let g = decimal(gid as nat);
    let r = signed_decimal(running_time as int);
    lemma_numeral_reads_back(pid as nat);
    lemma_numeral_reads_back(uid as nat);
    lemma_numeral_reads_back(gid as nat);
    lemma_signed_numeral_reads_back(running_time as int);
    assert(is_numeral(p) && is_numeral(u) && is_numeral(g) && is_signed_numeral(r));
}

/// The text by which the programs print the server's state; `loadavg` is how the three
/// load averages are shown.
pub fn describe_state(pid: u32, uid: u32, gid: u32, running_time: i64, loadavg: &str) -> (text:
    String)
    ensures
        text@ == state_text(pid as nat, uid as nat, gid as nat, running_time as int, loadavg@),
{
    let mut text = String::from_str("Current state is: pid = ");
    push_unsigned(&mut text, pid as u64);
    text.append(", uid = ");
    push_unsigned(&mut text, uid as u64);
    text.append(", gid = ");
    push_unsigned(&mut text, gid as u64);
    text.append(", running_time = ");
    push_signed(&mut text, running_time);
    text.append(", loadavg = ");
    text.append(loadavg);
    text
}

} // verus!
