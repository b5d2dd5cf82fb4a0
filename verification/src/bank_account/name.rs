//! The account-holder name value object.

use crate::error::DomainError;
use vstd::prelude::*;
use vstd::string::{StrSliceExecFns, StringExecFns};

verus! {

/// Whether `c` separates words in an account-name string.
pub open spec fn is_space_char(c: char) -> bool {
    c == ' ' || c == '\t' || c == '\n' || c == '\r'
}

/// The length of the leading run of non-space characters.
pub open spec fn word_len(s: Seq<char>) -> nat
    decreases s.len(),
{
    if s.len() == 0 || is_space_char(s[0]) {
        0
    } else {
        (1 + word_len(s.skip(1))) as nat
    }
}

/// The leading word is never empty and never longer than the string.
proof fn lemma_word_len_bounds(s: Seq<char>)
    ensures
        word_len(s) <= s.len(),
        s.len() > 0 && !is_space_char(s[0]) ==> word_len(s) >= 1,
    decreases s.len(),
{
    if s.len() > 0 && !is_space_char(s[0]) {
        lemma_word_len_bounds(s.skip(1));
    }
}

/// The whitespace-separated words of a string, in order.
pub open spec fn split_words(s: Seq<char>) -> Seq<Seq<char>>
    decreases s.len(),
    via split_words_decreases
{
    if s.len() == 0 {
        Seq::<Seq<char>>::empty()
    } else if is_space_char(s[0]) {
        split_words(s.skip(1))
    } else {
        seq![s.take(word_len(s) as int)] + split_words(s.skip(word_len(s) as int))
    }
}

#[via_fn]
proof fn split_words_decreases(s: Seq<char>) {
    lemma_word_len_bounds(s);
}

/// The name on a bank account: a first name and a last name.
#[derive(Debug)]
pub struct AccountName {
    first_name: String,
    last_name: String,
}

/// The spec-level value of an [`AccountName`].
pub struct AccountNameView {
    pub first_name: Seq<char>,
    pub last_name: Seq<char>,
}

impl View for AccountName {
    type V = AccountNameView;

    closed spec fn view(&self) -> AccountNameView {
        AccountNameView { first_name: self.first_name@, last_name: self.last_name@ }
    }
}

impl AccountName {
    /// Builds a name from its two parts. Any strings are accepted.
    pub fn from_primitives(first_name: String, last_name: String) -> (r: Result<
        Self,
        DomainError,
    >)
        ensures
            r matches Ok(n) && n@.first_name == first_name@ && n@.last_name == last_name@,
    {
        Ok(Self { first_name, last_name })
    }

    /// The first name.
    pub fn first_name(&self) -> (r: &str)
        ensures
            r@ == self@.first_name,
    {
        self.first_name.as_str()
    }

    /// The last name.
    pub fn last_name(&self) -> (r: &str)
        ensures
            r@ == self@.last_name,
    {
        self.last_name.as_str()
    }

    /// The full name: first name, one space, last name.
    pub fn to_name_string(&self) -> (r: String)
        ensures
            r@ == self@.first_name + seq![' '] + self@.last_name,
    {
        let mut name = self.first_name.clone();
        name.append(" ");
        name.append(self.last_name.as_str());
        proof {
            assert(" "@ == seq![' ']) by {
                reveal_strlit(" ");
            }
        }
        name
    }

    /// Parses a full name of the form "First Last": succeeds exactly when
    /// the string consists of two whitespace-separated words, which become
    /// the first and last name.
    pub fn try_from(value: String) -> (r: Result<AccountName, DomainError>)
        ensures
            split_words(value@).len() == 2 ==> (r matches Ok(n) && n@.first_name == split_words(
                value@,
            )[0] && n@.last_name == split_words(value@)[1]),
            split_words(value@).len() != 2 ==> (r matches Err(e) && e matches
                DomainError::DomainParseError(m) && m@ == "invalid account name"@),
    {
        let words = split_into_words(value.as_str());
        if words.len() == 2 {
            let mut words = words;
            let last_name = words.pop().unwrap();
            let first_name = words.pop().unwrap();
            Ok(AccountName { first_name, last_name })
        } else {
            Err(DomainError::DomainParseError("invalid account name".to_owned()))
        }
    }
}

/// Skipping one leading space drops nothing from the word list.
proof fn lemma_skip_space(s: Seq<char>, i: int)
    requires
        0 <= i < s.len(),
        is_space_char(s[i]),
    ensures
        split_words(s.skip(i)) == split_words(s.skip(i + 1)),
{
    assert(s.skip(i)[0] == s[i]);
    assert(s.skip(i).skip(1) =~= s.skip(i + 1));
}

/// At a word start, the word list begins with the leading word.
proof fn lemma_word_at(s: Seq<char>, i: int, j: int)
    requires
        0 <= i < j <= s.len(),
        !is_space_char(s[i]),
        forall|k: int| i <= k < j ==> !is_space_char(s[k]),
        j == s.len() || is_space_char(s[j]),
    ensures
        word_len(s.skip(i)) == j - i,
        split_words(s.skip(i)) == seq![s.subrange(i, j)] + split_words(s.skip(j)),
    decreases j - i,
{
    if i + 1 == j {
        assert(s.skip(i)[0] == s[i]);
        assert(s.skip(i).skip(1) =~= s.skip(j));
        if j < s.len() {
            assert(s.skip(j)[0] == s[j]);
        } else {
            assert(s.skip(j).len() == 0);
        }
        assert(word_len(s.skip(j)) == 0);
        assert(word_len(s.skip(i)) == 1);
    } else {
        lemma_word_at(s, i + 1, j);
        assert(s.skip(i).skip(1) =~= s.skip(i + 1));
        assert(s.skip(i)[0] == s[i]);
        assert(word_len(s.skip(i)) == j - i);
    }
    assert(s.skip(i).skip(j - i) =~= s.skip(j));
    assert(s.skip(i).take(j - i) =~= s.subrange(i, j));
    assert(split_words(s.skip(i)) == seq![s.skip(i).take(j - i)] + split_words(
        s.skip(i).skip(j - i),
    ));
}

/// Splits a string into its whitespace-separated words.
fn split_into_words(s: &str) -> (r: Vec<String>)
    ensures
        r@.map_values(|w: String| w@) == split_words(s@),
{
    let n = s.unicode_len();
    let mut words: Vec<String> = Vec::new();
    let mut i: usize = 0;
    proof {
        assert(s@.skip(0) =~= s@);
        assert(Seq::<String>::empty().map_values(|w: String| w@) + split_words(s@) =~= split_words(
            s@,
        ));
    }
    while i < n
        invariant
            i <= n,
            n == s@.len(),
            split_words(s@) == words@.map_values(|w: String| w@) + split_words(
                s@.skip(i as int),
            ),
        decreases n - i,
    {
        let c = s.get_char(i);
        if c == ' ' || c == '\t' || c == '\n' || c == '\r' {
            proof {
                lemma_skip_space(s@, i as int);
            }
            i = i + 1;
        } else {
            let start = i;
            let mut j = i + 1;
            while j < n
                invariant
                    start < j <= n,
                    n == s@.len(),
                    forall|k: int| start <= k < j ==> !is_space_char(s@[k]),
                ensures
                    start < j <= n,
                    forall|k: int| start <= k < j ==> !is_space_char(s@[k]),
                    j == n || is_space_char(s@[j as int]),
                decreases n - j,
            {
                let c = s.get_char(j);
                if c == ' ' || c == '\t' || c == '\n' || c == '\r' {
                    break ;
                }
                j = j + 1;
            }
            proof {
                lemma_word_at(s@, start as int, j as int);
            }
            let word = String::from_str(s.substring_char(start, j));
            let ghost old_words = words@;
            words.push(word);
            proof {
                assert(words@.map_values(|w: String| w@) =~= old_words.map_values(
                    |w: String| w@,
                ).push(word@));
                assert(words@.map_values(|w: String| w@) + split_words(s@.skip(j as int))
                    =~= split_words(s@));
            }
            i = j;
        }
    }
    proof {
        assert(s@.skip(n as int) =~= Seq::<char>::empty());
        assert(words@.map_values(|w: String| w@) + split_words(s@.skip(n as int))
            =~= words@.map_values(|w: String| w@));
    }
    words
}

impl Clone for AccountName {
    fn clone(&self) -> (r: Self)
        ensures
            r == *self,
    {
        Self { first_name: self.first_name.clone(), last_name: self.last_name.clone() }
    }
}

impl PartialEq for AccountName {
    fn eq(&self, other: &Self) -> (r: bool) {
        self.first_name == other.first_name && self.last_name == other.last_name
    }
}

impl vstd::std_specs::cmp::PartialEqSpecImpl for AccountName {
    open spec fn obeys_eq_spec() -> bool {
        true
    }

    open spec fn eq_spec(&self, other: &Self) -> bool {
        self@.first_name == other@.first_name && self@.last_name == other@.last_name
    }
}

impl Eq for AccountName {

}

} // verus!
