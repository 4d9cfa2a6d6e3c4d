//! Settings that the service derives before it connects to the store.

use vstd::prelude::*;
use vstd::string::StringExecFns;

verus! {

/// `connection` with the parameter that makes the store's driver insist on
/// TLS: appended behind `&` where the text has a query part already, behind
/// `?` where it has none.
pub open spec fn with_ssl_required(connection: Seq<char>) -> Seq<char> {
    if connection.contains('?') {
        connection + "&sslmode=require"@
    } else {
        connection + "?sslmode=require"@
    }
}

/// Whether `text` holds a question mark.
fn has_query(text: &str) -> (found: bool)
    ensures
        found == text@.contains('?'),
{
    for letter in letters: text.chars()
        invariant
            letters.seq() == text@,
            forall|i: int| 0 <= i < letters.index() ==> text@[i] != '?',
    {
        if letter == '?' {
            return true;
        }
    }
    false
}

/// The connection string to open the pool with: the one that was handed to
/// the service, with `sslmode=require` added to its query part.
pub fn require_ssl(connection: &str) -> (secured: String)
    ensures
        secured@ == with_ssl_required(connection@),
{
    let mut secured = String::from_str(connection);
    if has_query(connection) {
        secured.append("&sslmode=require");
    } else {
        secured.append("?sslmode=require");
    }
    secured
}

} // verus!
