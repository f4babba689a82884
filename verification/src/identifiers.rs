//! The forms of the Matrix identifiers that the event contents carry.
//!
//! A room ID starts with `!`. A user ID starts with `@` and has a `:` whose server name after
//! it is not empty. These are the sigil and delimiter checks of Matrix identifiers; the checks
//! of the localpart's characters, of the server name's grammar and of the length limit are not
//! made here.
use vstd::prelude::*;
use vstd::string::StrSliceExecFns;

verus! {

/// The string has the form of a room ID: it starts with `!`.
pub open spec fn is_room_id(s: Seq<char>) -> bool {
    s.len() > 0 && s[0] == '!'
}

/// The index of the first `:` of the string, from `start` on, if there is one.
pub open spec fn first_colon_from(s: Seq<char>, start: int) -> Option<int>
    decreases s.len() - start,
{
    if start < 0 || start >= s.len() {
        None
    } else if s[start] == ':' {
        Some(start)
    } else {
        first_colon_from(s, start + 1)
    }
}

/// The string has the form of a user ID: it starts with `@`, and its first `:` is followed by
/// a server name that is not empty.
pub open spec fn is_user_id(s: Seq<char>) -> bool {
    &&& s.len() > 0
    &&& s[0] == '@'
    &&& first_colon_from(s, 1) matches Some(i) && i < s.len() - 1
}

/// Whether the string has the form of a room ID.
pub fn check_room_id(s: &str) -> (r: bool)
    ensures
        r == is_room_id(s@),
{
    let n = s.unicode_len();
    n > 0 && s.get_char(0) == '!'
}

/// Whether the string has the form of a user ID.
pub fn check_user_id(s: &str) -> (r: bool)
    ensures
        r == is_user_id(s@),
{
    let n = s.unicode_len();
    if n == 0 || s.get_char(0) != '@' {
        return false;
    }
    let mut i: usize = 1;
    while i < n
        invariant
            1 <= i <= n,
            n == s@.len(),
            s@[0] == '@',
            first_colon_from(s@, 1) == first_colon_from(s@, i as int),
        decreases n - i,
    {
        if s.get_char(i) == ':' {
            return i + 1 < n;
        }
        i += 1;
    }
    false
}

/// The first `:` from `start` on is at `i` when `s[i]` is a `:` and none comes between.
pub proof fn lemma_first_colon_at(s: Seq<char>, start: int, i: int)
    requires
        0 <= start <= i < s.len(),
        s[i] == ':',
        forall|j: int| start <= j < i ==> s[j] != ':',
    ensures
        first_colon_from(s, start) == Some(i),
    decreases i - start,
{
    if start < i {
        lemma_first_colon_at(s, start + 1, i);
    }
}

/// What `first_colon_from` finds is a `:` with none before it from `start` on.
pub proof fn lemma_first_colon_found(s: Seq<char>, start: int)
    requires
        first_colon_from(s, start) is Some,
    ensures
        ({
            let i = first_colon_from(s, start)->Some_0;
            &&& 0 <= start <= i < s.len()
            &&& s[i] == ':'
            &&& forall|j: int| start <= j < i ==> s[j] != ':'
        }),
    decreases s.len() - start,
{
    if 0 <= start < s.len() && s[start] != ':' {
        lemma_first_colon_found(s, start + 1);
    }
}

/// Every string that starts with `!` is a room ID, whatever its other characters, and no other
/// string is.
pub proof fn lemma_room_id_form(s: Seq<char>)
    ensures
        is_room_id(s) <==> (s.len() > 0 && s[0] == '!'),
{
}

/// Every string that starts with `@` and whose first `:` is followed by at least one character
/// is a user ID, whatever its other characters (letters of either case, digits and the like);
/// and every user ID has that form.
pub proof fn lemma_user_id_form(s: Seq<char>, i: int)
    ensures
        (s.len() > 0 && s[0] == '@' && 1 <= i < s.len() - 1 && s[i] == ':' && (forall|j: int|
            1 <= j < i ==> s[j] != ':')) ==> is_user_id(s),
        is_user_id(s) ==> s.len() > 0 && s[0] == '@' && exists|k: int|
            1 <= k < s.len() - 1 && s[k] == ':' && (forall|j: int| 1 <= j < k ==> s[j] != ':'),
{
    if s.len() > 0 && s[0] == '@' && 1 <= i < s.len() - 1 && s[i] == ':' && (forall|j: int|
        1 <= j < i ==> s[j] != ':') {
        lemma_first_colon_at(s, 1, i);
    }
    if is_user_id(s) {
        lemma_first_colon_found(s, 1);
        let k = first_colon_from(s, 1)->Some_0;
        assert(1 <= k < s.len() - 1 && s[k] == ':' && (forall|j: int| 1 <= j < k ==> s[j] != ':'));
    }
}

} // verus!
