//! The access logger's line format: one line per handled request, in
//! common log format. Printing the line is left to the caller.

use vstd::prelude::*;
use vstd::string::*;
use crate::strutil::dec_str_of;
use crate::strutil::u64_to_dec;

verus! {

/// One access-log line:
/// `<remote> - - [<timestamp>] "<METHOD> <path> HTTP/<major>.<minor>" <status> -`.
pub open spec fn log_line_of(
    remote: Seq<char>,
    method: Seq<char>,
    path: Seq<char>,
    timestamp: Seq<char>,
    vmajor: u8,
    vminor: u8,
    status: u16,
) -> Seq<char> {
    remote + " - - ["@ + timestamp + "] \""@ + method + " "@ + path + " HTTP/"@ + dec_str_of(
        vmajor as nat,
    ) + "."@ + dec_str_of(vminor as nat) + "\" "@ + dec_str_of(status as nat) + " -"@
}

/// Formats one access-log line from the request's parts and a
/// ready-made timestamp.
pub fn format_log_line(
    remote: &str,
    method: &str,
    path: &str,
    timestamp: &str,
    vmajor: u8,
    vminor: u8,
    status: u16,
) -> (r: String)
    ensures
        r@ == log_line_of(remote@, method@, path@, timestamp@, vmajor, vminor, status),
{
    let mut s = String::from_str(remote);
    s.append(" - - [");
    s.append(timestamp);
    s.append("] \"");
    s.append(method);
    s.append(" ");
    s.append(path);
    s.append(" HTTP/");
    let major = u64_to_dec(vmajor as u64);
    s.append(major.as_str());
    s.append(".");
    let minor = u64_to_dec(vminor as u64);
    s.append(minor.as_str());
    s.append("\" ");
    let code = u64_to_dec(status as u64);
    s.append(code.as_str());
    s.append(" -");
    proof {
        assert(s@ =~= log_line_of(remote@, method@, path@, timestamp@, vmajor, vminor, status));
    }
    s
}

/// Relies on `chrono::Local::now`: the moment of the call in local
/// time, formatted day/month/year and time of day. Nothing is assumed
/// of the value, which depends on the clock.
#[verifier::external_body]
fn local_timestamp() -> String {
    chrono::Local::now().format("%d/%b/%Y %H:%M:%S").to_string()
}

/// The access-log line for one handled request, stamped with the local
/// time at the moment of the call.
pub fn make_log_line(
    remote: &str,
    method: &str,
    path: &str,
    vmajor: u8,
    vminor: u8,
    status: u16,
) -> (r: String)
    ensures
        exists|timestamp: Seq<char>|
            r@ == log_line_of(remote@, method@, path@, timestamp, vmajor, vminor, status),
{
    let stamp = local_timestamp();
    let line = format_log_line(remote, method, path, stamp.as_str(), vmajor, vminor, status);
    proof {
        assert(line@ == log_line_of(remote@, method@, path@, stamp@, vmajor, vminor, status));
    }
    line
}

} // verus!
