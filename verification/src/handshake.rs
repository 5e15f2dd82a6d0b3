//! The check of a client that authenticates.

use crate::text::{decimal, decimal_reads_back, push_decimal, reads_as};
use vstd::prelude::*;
use vstd::string::*;

verus! {

/// Version of the message format. A client that speaks another is turned away.
pub const PROTOCOL_VERSION: u32 = 1;

/// Why a client was turned away.
#[derive(Debug, Clone, Copy, PartialEq, Eq, Structural)]
pub enum Rejection {
    /// It presented another token than it was launched with.
    BadToken,
    /// It speaks another version of the message format.
    VersionMismatch { client: u32 },
}

/// The verdict on a client with this token and version. The token counts first.
pub open spec fn verdict(
    expected_token: Seq<char>,
    token: Seq<char>,
    protocol_version: u32,
) -> Result<(), Rejection> {
    if token != expected_token {
        Err(Rejection::BadToken)
    } else if protocol_version != PROTOCOL_VERSION {
        Err(Rejection::VersionMismatch { client: protocol_version })
    } else {
        Ok(())
    }
}

/// Checks a client's token and version.
pub fn check_client(expected_token: &String, token: &String, protocol_version: u32) -> (res: Result<
    (),
    Rejection,
>)
    ensures
        res == verdict(expected_token@, token@, protocol_version),
{
    if *token != *expected_token {
        return Err(Rejection::BadToken);
    }
    if protocol_version != PROTOCOL_VERSION {
        return Err(Rejection::VersionMismatch { client: protocol_version });
    }
    Ok(())
}

/// The text round the two version numbers of a mismatch.
pub open spec fn mismatch_reason(
    before: Seq<char>,
    between: Seq<char>,
    after: Seq<char>,
    client: u32,
) -> Seq<char> {
    before + decimal(PROTOCOL_VERSION as nat) + between + decimal(client as nat) + after
}

/// Puts the two version numbers of a mismatch between the given texts.
pub fn write_mismatch_reason(before: &str, between: &str, after: &str, client: u32) -> (res: String)
    ensures
        res@ == mismatch_reason(before@, between@, after@, client),
{
    let mut out = String::new();
    out.append(before);
    push_decimal(&mut out, PROTOCOL_VERSION as u64);
    out.append(between);
    push_decimal(&mut out, client as u64);
    out.append(after);
    assert(Seq::<char>::empty() + before@ =~= before@);
    out
}

/// A client is let in exactly with the token that it was launched with and the
/// launcher's own version.
pub proof fn only_the_launched_client_is_let_in(
    expected_token: Seq<char>,
    token: Seq<char>,
    protocol_version: u32,
)
    ensures
        verdict(expected_token, token, protocol_version) is Ok <==> token == expected_token
            && protocol_version == PROTOCOL_VERSION,
{
}

/// A client is let in exactly with the very token it was launched with and version
/// one. With another token it is told that, whatever its version; with another
/// version, which one it presented.
pub proof fn a_client_is_judged(
    expected: String,
    token: String,
    version: u32,
    res: Result<(), Rejection>,
)
    requires
        call_ensures(check_client, (&expected, &token, version), res),
    ensures
        res == Ok::<(), Rejection>(()) <==> token@ == expected@ && version == 1,
        res == Err::<(), Rejection>(Rejection::BadToken) <==> token@ != expected@,
        res == Err::<(), Rejection>(Rejection::VersionMismatch { client: version }) <==> token@
            == expected@ && version != 1,
{
}

/// The text of a mismatch holds two numbers between the given texts: the
/// launcher's version, which is one, and the one that reads back as the client's.
pub proof fn a_mismatch_tells_both_versions(
    before: &str,
    between: &str,
    after: &str,
    client: u32,
    res: String,
)
    requires
        call_ensures(write_mismatch_reason, (before, between, after, client), res),
    ensures
        exists|own: Seq<char>, theirs: Seq<char>|
            {
                &&& res@ == #[trigger] (before@ + own + between@ + theirs + after@)
                &&& reads_as(own, 1)
                &&& reads_as(theirs, client as int)
            },
{
    let own = decimal(1);
    let theirs = decimal(client as nat);
    decimal_reads_back(1);
    decimal_reads_back(client as nat);
    assert(res@ == before@ + own + between@ + theirs + after@);
}

} // verus!
