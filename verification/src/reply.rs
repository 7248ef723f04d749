//! What the transport handlers say: the text reply to a socket command and
//! the status an error maps to.

use vstd::prelude::*;
use vstd::string::*;
use crate::error::DatabaseError;
use crate::executor::texts;

verus! {

/// The items of `names`, each two separated by `sep`.
pub open spec fn joined(names: Seq<Seq<char>>, sep: Seq<char>) -> Seq<char>
    decreases names.len(),
{
    if names.len() == 0 {
        Seq::empty()
    } else if names.len() == 1 {
        names[0]
    } else {
        joined(names.drop_last(), sep) + sep + names.last()
    }
}

/// The reply to a socket message, given the stored names: the names joined
/// by a comma and a space for the command `get_users`, the usage text for
/// anything else.
pub open spec fn reply_model(message: Seq<char>, names: Seq<Seq<char>>) -> Seq<char> {
    if message == "get_users"@ {
        joined(names, ", "@)
    } else {
        "Invalid message. Use 'get_users' to get users."@
    }
}

/// Whether the message is the command that asks for the stored users.
pub fn is_get_users(message: &str) -> (b: bool)
    ensures
        b == (message@ == "get_users"@),
{
    let m = String::from_str(message);
    let command = String::from_str("get_users");
    m == command
}

/// Joins the items with `sep` between each two.
pub fn join(names: &Vec<String>, sep: &str) -> (res: String)
    ensures
        res@ == joined(texts(names@), sep@),
{
    let mut out = String::new();
    let mut i: usize = 0;
    while i < names.len()
        invariant
            i <= names.len(),
            out@ == joined(texts(names@).take(i as int), sep@),
        decreases names.len() - i,
    {
        let ghost before = texts(names@).take(i as int);
        let ghost after = texts(names@).take(i + 1);
        assert(after.drop_last() =~= before);
        assert(after.last() == names[i as int]@);
        if i > 0 {
            out.append(sep);
        } else {
            assert(Seq::<char>::empty() + names[i as int]@ =~= names[i as int]@);
        }
        out.append(names[i].as_str());
        i += 1;
    }
    assert(texts(names@).take(names.len() as int) =~= texts(names@));
    out
}

/// The text sent back for a socket message.
pub fn reply_text(message: &str, names: &Vec<String>) -> (res: String)
    ensures
        res@ == reply_model(message@, texts(names@)),
{
    if is_get_users(message) {
        join(names, ", ")
    } else {
        String::from_str("Invalid message. Use 'get_users' to get users.")
    }
}

/// The text sent back where the query behind a command failed. It says
/// nothing of the error.
pub fn failure_text() -> (res: String)
    ensures
        res@ == "The request could not be completed."@,
{
    String::from_str("The request could not be completed.")
}

/// The status a failed operation is answered with: a server error, always.
pub fn http_status(error: DatabaseError) -> (status: u16)
    ensures
        status == (if error == DatabaseError::PoolExhausted || error
            == DatabaseError::ConnectionError {
            503u16
        } else {
            500u16
        }),
{
    match error {
        DatabaseError::PoolExhausted | DatabaseError::ConnectionError => 503,
        _ => 500,
    }
}

} // verus!
