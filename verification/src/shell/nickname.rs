//! The optional Local Nickname, kept only on this Device for the UI (never on the wire).
use crate::encoding::{is_unicode_whitespace, is_whitespace};
use crate::text::string_push;
use vstd::prelude::*;
use vstd::string::StrSliceExecFns;

verus! {

/// Optional Local Nickname store. A nickname is saved trimmed; a blank one clears it.
pub trait LocalNicknameStoring {
    fn clear(&mut self);

    fn load(&self) -> Option<String>;

    fn save(&mut self, nickname: &str);
}

/// `r` is `s` without its leading and trailing Unicode whitespace.
pub open spec fn is_trim_of(r: Seq<char>, s: Seq<char>) -> bool {
    exists|i: int, j: int|
        #![trigger s.subrange(i, j)]
        0 <= i <= j <= s.len() && r == s.subrange(i, j) && (forall|k: int|
            0 <= k < i ==> is_unicode_whitespace(#[trigger] s[k])) && (forall|k: int|
            j <= k < s.len() ==> is_unicode_whitespace(#[trigger] s[k])) && (r.len() > 0
            ==> !is_unicode_whitespace(r[0]) && !is_unicode_whitespace(r[r.len() - 1]))
}

/// `s` holds only Unicode whitespace.
pub open spec fn is_blank(s: Seq<char>) -> bool {
    forall|k: int| 0 <= k < s.len() ==> is_unicode_whitespace(#[trigger] s[k])
}

/// `s` without its leading and trailing whitespace (`str::trim`).
pub fn trim(s: &str) -> (r: String)
    ensures
        is_trim_of(r@, s@),
        r@.len() == 0 <==> is_blank(s@),
{
    let n = s.unicode_len();
    let mut i: usize = 0;
    while i < n && is_whitespace(s.get_char(i))
        invariant
            n == s@.len(),
            i <= n,
            forall|k: int| 0 <= k < i ==> is_unicode_whitespace(#[trigger] s@[k]),
        decreases n - i,
    {
        i = i + 1;
    }
    let mut j: usize = n;
    while j > i && is_whitespace(s.get_char(j - 1))
        invariant
            n == s@.len(),
            i <= j <= n,
            forall|k: int| j <= k < n ==> is_unicode_whitespace(#[trigger] s@[k]),
        decreases j,
    {
        j = j - 1;
    }
    let mut r = String::new();
    let mut k: usize = i;
    while k < j
        invariant
            n == s@.len(),
            i <= k <= j <= n,
            r@ == s@.subrange(i as int, k as int),
        decreases j - k,
    {
        string_push(&mut r, s.get_char(k));
        assert(s@.subrange(i as int, k + 1) =~= s@.subrange(i as int, k as int).push(s@[k as int]));
        k = k + 1;
    }
    proof {
        let t = s@.subrange(i as int, j as int);
        assert(r@ == t);
        if i < j {
            assert(t[0] == s@[i as int]);
            assert(t[t.len() - 1] == s@[j - 1]);
        }
        assert(is_trim_of(r@, s@));
        if is_blank(s@) {
            if i < j {
                assert(is_unicode_whitespace(s@[i as int]));
            }
        }
        if r@.len() == 0 {
            assert(i == j);
            assert forall|k: int| 0 <= k < s@.len() implies is_unicode_whitespace(#[trigger] s@[k]) by {
                if k >= i {
                    assert(k >= j);
                }
            }
        }
    }
    r
}

/// The nickname kept after saving `nickname`: trimmed, or none when blank.
pub open spec fn saved_nickname(nickname: Seq<char>, kept: Option<Seq<char>>) -> bool {
    if is_blank(nickname) {
        kept is None
    } else {
        kept matches Some(t) && is_trim_of(t, nickname)
    }
}

/// In-memory Local Nickname store.
pub struct InMemoryNicknameStore {
    value: Option<String>,
}

impl Default for InMemoryNicknameStore {
    /// A store without a nickname.
    fn default() -> (r: InMemoryNicknameStore)
        ensures
            r.nickname() is None,
    {
        InMemoryNicknameStore { value: None }
    }
}

impl InMemoryNicknameStore {
    /// The stored nickname, if any.
    pub closed spec fn nickname(&self) -> Option<Seq<char>> {
        match self.value {
            Some(v) => Some(v@),
            None => None,
        }
    }
}

impl LocalNicknameStoring for InMemoryNicknameStore {
    fn load(&self) -> (r: Option<String>)
        ensures
            match r {
                Some(v) => self.nickname() == Some(v@),
                None => self.nickname() is None,
            },
    {
        match &self.value {
            Some(v) => Some(v.clone()),
            None => None,
        }
    }

    fn save(&mut self, nickname: &str)
        ensures
            saved_nickname(nickname@, final(self).nickname()),
    {
        let trimmed = trim(nickname);
        if trimmed.as_str().is_empty() {
            self.value = None;
        } else {
            self.value = Some(trimmed);
        }
    }

    fn clear(&mut self)
        ensures
            final(self).nickname() is None,
    {
        self.value = None;
    }
}

} // verus!
