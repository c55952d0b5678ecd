//! The banner that names the host the prompt runs on.

use vstd::prelude::*;

verus! {

/// `std::io::Error`, the error with which a query of the host fails. It is carried through
/// as it comes; nothing is read from it.
#[verifier::external_type_specification]
#[verifier::external_body]
pub struct ExIoError(std::io::Error);

/// What the banner tells of the host.
#[derive(Debug)]
pub struct HostInfo {
    /// Name of the operating system.
    pub sysname: String,
    /// Release of the operating system.
    pub release: String,
    /// Version of that release.
    pub version: String,
}

/// The host gave no account of itself.
#[derive(Debug)]
pub struct HostQueryFailed {
    /// The error that the query ended with.
    pub cause: std::io::Error,
}

/// The text of the banner for a host.
pub open spec fn banner_text(sysname: Seq<char>, release: Seq<char>, version: Seq<char>) -> Seq<
    char,
> {
    "This is '"@ + sysname + "' version '"@ + release + "'("@ + version + ")"@
}

/// Asks the host for its identification with `uname_rs::Uname::new`, and keeps the three
/// strings that the banner shows. The answer is the host's: nothing is claimed of what the
/// strings hold, nor of when the query fails.
#[verifier::external_body]
fn query_host() -> (answer: Result<HostInfo, std::io::Error>) {
    match uname_rs::Uname::new() {
        Ok(uts) => Ok(HostInfo { sysname: uts.sysname, release: uts.release, version: uts.version }),
        Err(cause) => Err(cause),
    }
}

/// Writes the banner for `info`.
pub fn banner(info: &HostInfo) -> (text: String)
    ensures
        text@ == banner_text(info.sysname@, info.release@, info.version@),
{
    let mut text = String::new();
    text.append("This is '");
    text.append(info.sysname.as_str());
    text.append("' version '");
    text.append(info.release.as_str());
    text.append("'(");
    text.append(info.version.as_str());
    text.append(")");
    text
}

/// Asks the host for its identification and writes the banner for it. Whether the host
/// answers is the host's affair; where it does, the text is the banner of what it said.
pub fn host_banner() -> (outcome: Result<String, HostQueryFailed>)
    ensures
        outcome matches Ok(text) ==> exists|info: HostInfo|
            text@ == #[trigger] banner_text(info.sysname@, info.release@, info.version@),
{
    banner_of_answer(query_host())
}

/// Makes of the host's answer what the prompt starts with: the banner of what the host
/// said, or, where the query failed, the failure with the error that the query ended with.
pub fn banner_of_answer(answer: Result<HostInfo, std::io::Error>) -> (outcome: Result<
    String,
    HostQueryFailed,
>)
    ensures
        match answer {
            Ok(info) => outcome matches Ok(text) && text@ == banner_text(
                info.sysname@,
                info.release@,
                info.version@,
            ),
            Err(cause) => outcome matches Err(failed) && failed.cause == cause,
        },
{
    match answer {
        Ok(info) => Ok(banner(&info)),
        Err(cause) => Err(HostQueryFailed { cause }),
    }
}

} // verus!
