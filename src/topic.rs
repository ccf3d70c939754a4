use vstd::prelude::*;

verus! {

/// Whether zenoh's key-expression parser accepts `s`.
pub uninterp spec fn keyexpr_accepts(s: Seq<char>) -> bool;

/// A character that may stand inside a chunk of a key expression with no
/// further rule attached to it: above `/` in code order and not `?`.
pub open spec fn is_plain_char(c: char) -> bool {
    '/' < c && c != '?'
}

/// A slash-separated path of non-empty chunks made of plain characters only.
pub open spec fn is_plain_topic(s: Seq<char>) -> bool {
    &&& s.len() > 0
    &&& s[0] != '/'
    &&& s[s.len() - 1] != '/'
    &&& forall|i: int| 0 <= i < s.len() ==> (#[trigger] s[i] == '/' || is_plain_char(s[i]))
    &&& forall|i: int| 0 <= i < s.len() - 1 && #[trigger] s[i] == '/' ==> s[i + 1] != '/'
}

/// Relies on `zenoh::key_expr::KeyExpr::try_from(String)`: it rejects the
/// empty string, any text holding `#` or `?`, a leading or trailing `/` and
/// an empty chunk (`//`), and accepts a path of non-empty chunks of plain
/// characters.
#[verifier::external_body]
fn zenoh_accepts_keyexpr(s: &String) -> (r: bool)
    ensures
        r == keyexpr_accepts(s@),
        s@.len() == 0 ==> !r,
        s@.contains('#') ==> !r,
        s@.contains('?') ==> !r,
        s@.len() > 0 && s@[0] == '/' ==> !r,
        s@.len() > 0 && s@[s@.len() - 1] == '/' ==> !r,
        (exists|i: int| 0 <= i < s@.len() - 1 && #[trigger] s@[i] == '/' && s@[i + 1] == '/') ==> !r,
        is_plain_topic(s@) ==> r,
{
    zenoh::key_expr::KeyExpr::try_from(s.clone()).is_ok()
}

/// A topic name that zenoh accepts as a key expression.
#[derive(Clone, Debug, PartialEq, Eq)]
pub struct Topic {
    text: String,
}

impl Topic {
    /// The topic's text.
    pub closed spec fn view(&self) -> Seq<char> {
        self.text@
    }

    /// zenoh accepts the topic's text as a key expression.
    pub open spec fn wf(&self) -> bool {
        keyexpr_accepts(self.view())
    }

    /// Validates `s` as a key expression.
    pub fn parse(s: &String) -> (r: Option<Topic>)
        ensures
            r is Some <==> keyexpr_accepts(s@),
            r matches Some(t) ==> t.view() == s@ && t.wf(),
            r matches Some(t) ==> t.view().len() > 0 && !t.view().contains('#') && !t.view().contains(
                '?',
            ),
            is_plain_topic(s@) ==> r is Some,
    {
        if zenoh_accepts_keyexpr(s) {
            Some(Topic { text: s.clone() })
        } else {
            None
        }
    }

    /// The topic's text.
    pub fn as_str(&self) -> (r: &str)
        ensures
            r@ == self.view(),
    {
        self.text.as_str()
    }
}

} // verus!
