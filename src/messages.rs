use vstd::prelude::*;
use vstd::string::*;
use crate::digits::{append_int, int_digits};

verus! {

/// Reported when the host cannot reach the network.
pub open spec fn offline_msg() -> Seq<char> {
    "no internet; restarting whole server"@
}

/// Reported when the flush command could not be started.
pub open spec fn flush_failed_msg(err: Seq<char>) -> Seq<char> {
    "could not call `sync`: "@ + err
}

/// Reported when the flush command ended with a failure status.
pub open spec fn flush_status_msg() -> Seq<char> {
    "able to call `sync`; bad return code"@
}

/// Reported when the reboot request failed.
pub open spec fn reboot_failed_msg(err: Seq<char>) -> Seq<char> {
    "could not restart server: "@ + err
}

/// Reported for a service that the host does not know.
pub open spec fn missing_msg(name: Seq<char>) -> Seq<char> {
    "service `"@ + name + "` doesn't exist"@
}

/// Reported when a service could not be inspected.
pub open spec fn inspect_failed_msg(name: Seq<char>, err: Seq<char>) -> Seq<char> {
    "could not inspect service `"@ + name + "`: "@ + err
}

/// Reported when a restart ended with a non-zero return code.
pub open spec fn restart_code_msg(name: Seq<char>, code: int) -> Seq<char> {
    "could not restart service `"@ + name + "` -> return code "@ + int_digits(code)
}

/// Reported when a restart ended without a return code (killed by a signal).
pub open spec fn restart_no_code_msg(name: Seq<char>) -> Seq<char> {
    "could not restart service `"@ + name + "` -> no return code"@
}

/// Reported when the restart command could not be issued.
pub open spec fn restart_failed_msg(name: Seq<char>, err: Seq<char>) -> Seq<char> {
    "could not restart service `"@ + name + "`: "@ + err
}

/// Reported when a cycle runs to its end without the process being relaunched.
pub open spec fn end_msg() -> Seq<char> {
    "unreachable: service restarter should have restarted itself"@
}

fn text(s: &str) -> (r: String)
    ensures
        r@ == s@,
{
    String::from_str(s)
}

fn joined(a: &str, b: &str) -> (r: String)
    ensures
        r@ == a@ + b@,
{
    let mut r = String::from_str(a);
    r.append(b);
    r
}

fn joined3(a: &str, b: &str, c: &str) -> (r: String)
    ensures
        r@ == a@ + b@ + c@,
{
    let mut r = String::from_str(a);
    r.append(b);
    r.append(c);
    r
}

pub fn offline() -> (r: String)
    ensures
        r@ == offline_msg(),
{
    text("no internet; restarting whole server")
}

pub fn flush_failed(err: &str) -> (r: String)
    ensures
        r@ == flush_failed_msg(err@),
{
    joined("could not call `sync`: ", err)
}

pub fn flush_status() -> (r: String)
    ensures
        r@ == flush_status_msg(),
{
    text("able to call `sync`; bad return code")
}

pub fn reboot_failed(err: &str) -> (r: String)
    ensures
        r@ == reboot_failed_msg(err@),
{
    joined("could not restart server: ", err)
}

pub fn missing(name: &str) -> (r: String)
    ensures
        r@ == missing_msg(name@),
{
    joined3("service `", name, "` doesn't exist")
}

pub fn inspect_failed(name: &str, err: &str) -> (r: String)
    ensures
        r@ == inspect_failed_msg(name@, err@),
{
    let mut r = joined3("could not inspect service `", name, "`: ");
    r.append(err);
    r
}

pub fn restart_code(name: &str, code: i32) -> (r: String)
    ensures
        r@ == restart_code_msg(name@, code as int),
{
    let mut r = joined3("could not restart service `", name, "` -> return code ");
    append_int(&mut r, code);
    r
}

pub fn restart_no_code(name: &str) -> (r: String)
    ensures
        r@ == restart_no_code_msg(name@),
{
    joined3("could not restart service `", name, "` -> no return code")
}

pub fn restart_failed(name: &str, err: &str) -> (r: String)
    ensures
        r@ == restart_failed_msg(name@, err@),
{
    let mut r = joined3("could not restart service `", name, "`: ");
    r.append(err);
    r
}

pub fn end() -> (r: String)
    ensures
        r@ == end_msg(),
{
    text("unreachable: service restarter should have restarted itself")
}

} // verus!
