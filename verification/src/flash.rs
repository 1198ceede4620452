//! Flash messages: the one-shot notice that a redirect carries to the next
//! page, and how a page reads the notice it was handed.

use vstd::prelude::*;

verus! {

/// Whether a flash notice reports a success or an error.
#[derive(Clone, Copy, Debug, PartialEq, Eq, Structural)]
pub enum FlashKind {
    Success,
    Error,
}

/// The name under which a notice of kind `k` travels to the next request.
pub open spec fn flash_kind_name(k: FlashKind) -> Seq<char> {
    match k {
        FlashKind::Success => "success"@,
        FlashKind::Error => "error"@,
    }
}

impl FlashKind {
    /// The name under which a notice of this kind travels to the next request.
    pub fn name(&self) -> (r: String)
        ensures
            r@ == flash_kind_name(*self),
    {
        match self {
            FlashKind::Success => String::from_str("success"),
            FlashKind::Error => String::from_str("error"),
        }
    }
}

/// A plain redirect to `route`.
#[derive(Debug, PartialEq, Eq)]
pub struct Redirect {
    pub route: String,
}

/// A redirect to `route` that carries a flash notice.
#[derive(Debug, PartialEq, Eq)]
pub struct FlashRedirect {
    pub kind: FlashKind,
    pub route: String,
    pub message: String,
}

/// The mathematical content of a [`FlashRedirect`].
pub struct FlashNote {
    pub kind: FlashKind,
    pub route: Seq<char>,
    pub message: Seq<char>,
}

impl View for FlashRedirect {
    type V = FlashNote;

    open spec fn view(&self) -> FlashNote {
        FlashNote { kind: self.kind, route: self.route@, message: self.message@ }
    }
}

pub open spec fn note(kind: FlashKind, route: Seq<char>, message: Seq<char>) -> FlashNote {
    FlashNote { kind, route, message }
}

/// The content of a response that either succeeds or fails with a flash notice.
pub open spec fn response_view(r: Result<FlashRedirect, FlashRedirect>) -> Result<FlashNote, FlashNote> {
    match r {
        Ok(f) => Ok(f@),
        Err(f) => Err(f@),
    }
}

/// A flash notice as the next request receives it: its kind's name and its text.
#[derive(Debug, PartialEq, Eq)]
pub struct FlashMessage {
    pub name: String,
    pub msg: String,
}

pub fn flash_redirect(kind: FlashKind, route: &str, message: &str) -> (r: FlashRedirect)
    ensures
        r@ == note(kind, route@, message@),
{
    FlashRedirect { kind, route: String::from_str(route), message: String::from_str(message) }
}

/// Refuses a page to a visitor who is not logged in: an error notice that
/// sends them to `route`.
pub fn not_logged_in(route: &str) -> (r: Result<FlashRedirect, FlashRedirect>)
    ensures
        response_view(r) == Err::<FlashNote, FlashNote>(
            note(FlashKind::Error, route@, "You need to login, or register!"@),
        ),
{
    Err(flash_redirect(FlashKind::Error, route, "You need to login, or register!"))
}

/// Refuses a page meant for visitors to a user who is already logged in: an
/// error notice that sends them to `route`.
pub fn improper_user_access(route: &str) -> (r: Result<FlashRedirect, FlashRedirect>)
    ensures
        response_view(r) == Err::<FlashNote, FlashNote>(
            note(
                FlashKind::Error,
                route@,
                "You are already logged in! Logout to login, or create a new account."@,
            ),
        ),
{
    Err(
        flash_redirect(
            FlashKind::Error,
            route,
            "You are already logged in! Logout to login, or create a new account.",
        ),
    )
}

/// `i` is the first position of `c` in `s`.
pub open spec fn is_first_index(s: Seq<char>, c: char, i: int) -> bool {
    &&& 0 <= i < s.len()
    &&& s[i] == c
    &&& forall|j: int| 0 <= j < i ==> s[j] != c
}

/// The first position of `c` in `s`, or 0 where `c` does not occur.
pub open spec fn split_position(s: Seq<char>, c: char) -> int {
    if exists|i: int| is_first_index(s, c, i) {
        choose|i: int| is_first_index(s, c, i)
    } else {
        0
    }
}

proof fn lemma_split_position(s: Seq<char>, c: char, i: int)
    requires
        is_first_index(s, c, i),
    ensures
        split_position(s, c) == i,
{
    let k = choose|k: int| is_first_index(s, c, k);
    assert(is_first_index(s, c, k));
    if k < i {
        assert(s[k] != c);
    }
    if i < k {
        assert(s[i] != c);
    }
}

proof fn lemma_split_position_absent(s: Seq<char>, c: char)
    requires
        forall|j: int| 0 <= j < s.len() ==> s[j] != c,
    ensures
        split_position(s, c) == 0,
{
}

/// The text of the notice that a page was handed, its kind's name and its
/// message joined by `&`; a fixed text where there is none.
pub open spec fn flash_text(flash: Option<FlashMessage>) -> Seq<char> {
    match flash {
        Some(f) => f.name@ + seq!['&'] + f.msg@,
        None => "no class&No flash message"@,
    }
}

/// The class and the remainder that [`flash_message_breakdown`] gives: the
/// text is cut before its first `&`; the class is `success` where the part
/// before the cut is `success`, and `alert` otherwise.
pub open spec fn breakdown(flash: Option<FlashMessage>) -> (Seq<char>, Seq<char>) {
    let t = flash_text(flash);
    let p = split_position(t, '&');
    (if t.take(p) == "success"@ {
        "success"@
    } else {
        "alert"@
    }, t.skip(p))
}

/// The class and the message that a page shows for the notice it was handed:
/// the remainder of [`breakdown`] without its leading `&`.
pub open spec fn page_flash_view(flash: Option<FlashMessage>) -> (Seq<char>, Seq<char>) {
    let b = breakdown(flash);
    (b.0, b.1.skip(1))
}

/// The cut of the notice text falls on an `&`.
pub proof fn lemma_flash_text_cut(flash: Option<FlashMessage>)
    ensures
        0 <= split_position(flash_text(flash), '&') < flash_text(flash).len(),
        flash_text(flash)[split_position(flash_text(flash), '&')] == '&',
{
    let t = flash_text(flash);
    match flash {
        Some(f) => {
            let n = f.name@.len() as int;
            assert(t[n] == '&');
            lemma_some_first_index(t, '&', n);
        },
        None => {
            reveal_strlit("no class&No flash message");
            assert(t[8] == '&');
            lemma_some_first_index(t, '&', 8);
        },
    }
}

proof fn lemma_some_first_index(s: Seq<char>, c: char, i: int)
    requires
        0 <= i < s.len(),
        s[i] == c,
    ensures
        0 <= split_position(s, c) < s.len(),
        s[split_position(s, c)] == c,
    decreases i,
{
    if forall|j: int| 0 <= j < i ==> s[j] != c {
        assert(is_first_index(s, c, i));
        lemma_split_position(s, c, i);
    } else {
        let j = choose|j: int| 0 <= j < i && s[j] == c;
        lemma_some_first_index(s, c, j);
    }
}

/// The class a page gives a notice of kind `k`.
pub open spec fn page_class(k: FlashKind) -> Seq<char> {
    match k {
        FlashKind::Success => "success"@,
        FlashKind::Error => "alert"@,
    }
}

/// A notice that a redirect carries arrives intact: where the next request
/// hands a page a notice under the name of its kind, the page shows exactly
/// the notice's message, under the class of its kind.
pub proof fn lemma_flash_round_trip(kind: FlashKind, f: FlashMessage)
    requires
        f.name@ == flash_kind_name(kind),
    ensures
        page_flash_view(Some(f)) == (page_class(kind), f.msg@),
{
    reveal_strlit("success");
    reveal_strlit("error");
    reveal_strlit("alert");
    let t = flash_text(Some(f));
    let n = f.name@.len() as int;
    assert(t[n] == '&');
    assert(is_first_index(t, '&', n));
    lemma_split_position(t, '&', n);
    assert(t.take(n) =~= f.name@);
    assert(t.skip(n).skip(1) =~= f.msg@);
    if kind == FlashKind::Error {
        assert(f.name@[0] != "success"@[0]);
    }
}

/// Splits the notice a page was handed into a CSS class and the rest of its
/// text; see [`breakdown`].
pub fn flash_message_breakdown(flash: Option<FlashMessage>) -> (r: (String, String))
    ensures
        r.0@ == breakdown(flash).0,
        r.1@ == breakdown(flash).1,
{
    let ghost t = flash_text(flash);
    let text: String = match flash {
        Some(f) => {
            let mut joined = f.name;
            proof {
                reveal_strlit("&");
            }
            joined.append("&");
            joined.append(f.msg.as_str());
            joined
        },
        None => {
            proof {
                reveal_strlit("no class&No flash message");
            }
            String::from_str("no class&No flash message")
        },
    };
    assert(text@ =~= t);
    let s = text.as_str();
    let n = s.unicode_len();
    let mut i: usize = 0;
    let mut pos: usize = 0;
    while i < n
        invariant_except_break
            pos == 0,
        invariant
            n == s@.len(),
            s@ == t,
            i <= n,
            forall|j: int| 0 <= j < i ==> s@[j] != '&',
        ensures
            i <= n,
            forall|j: int| 0 <= j < i ==> s@[j] != '&',
            i < n ==> s@[i as int] == '&' && pos == i,
            i == n ==> pos == 0,
        decreases n - i,
    {
        if s.get_char(i) == '&' {
            pos = i;
            break;
        }
        i = i + 1;
    }
    proof {
        if i == n {
            lemma_split_position_absent(t, '&');
        } else {
            assert(is_first_index(t, '&', i as int));
            lemma_split_position(t, '&', i as int);
        }
    }
    assert(pos == split_position(t, '&'));
    let first = s.substring_char(0, pos);
    let second = s.substring_char(pos, n);
    assert(first@ =~= t.take(pos as int));
    assert(second@ =~= t.skip(pos as int));
    proof {
        reveal_strlit("success");
        reveal_strlit("alert");
    }
    let class = if String::from_str(first) == String::from_str("success") {
        String::from_str("success")
    } else {
        String::from_str("alert")
    };
    (class, String::from_str(second))
}

/// The class and message that a page shows for the notice it was handed.
pub fn page_flash(flash: Option<FlashMessage>) -> (r: (String, String))
    ensures
        r.0@ == page_flash_view(flash).0,
        r.1@ == page_flash_view(flash).1,
{
    proof {
        lemma_flash_text_cut(flash);
    }
    let ghost b = breakdown(flash);
    let parts = flash_message_breakdown(flash);
    let rest = parts.1.as_str();
    let n = rest.unicode_len();
    let message = rest.substring_char(1, n);
    assert(message@ =~= b.1.skip(1));
    (parts.0, String::from_str(message))
}

} // verus!
