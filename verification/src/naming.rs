use vstd::prelude::*;
use crate::text::{
    ascii_lower, ascii_upper, char_is_alpha, char_is_digit, char_is_lower, char_is_upper, chars_of,
    is_alpha, is_digit, is_lower, is_upper, lower_char, push_char, str_eq, string_from_chars, upper_char, upper_seq,
};
use crate::error::{plain, res_view, DeriveError, DeriveErrorKind};

verus! {

/// `_` and `-` separate words and never belong to one.
pub open spec fn is_separator(c: char) -> bool {
    c == '_' || c == '-'
}

/// Whether a new word starts at `chars[idx]` (given that the word being
/// built is not empty, so `idx >= 1`): a lower-to-upper step, a letter-digit
/// or digit-letter step, or the last capital of an acronym that a lowercase
/// letter follows (`HTTPServer` splits as `http`, `server`).
pub open spec fn starts_word(chars: Seq<char>, idx: int) -> bool {
    let prev = chars[idx - 1];
    let ch = chars[idx];
    ||| (is_lower(prev) && is_upper(ch))
    ||| (is_alpha(prev) && is_digit(ch))
    ||| (is_digit(prev) && is_alpha(ch))
    ||| (is_upper(prev) && is_upper(ch) && idx + 1 < chars.len() && is_lower(chars[idx + 1]))
}

/// The finished words and the word under construction after reading the
/// first `i` chars of `chars`.
pub open spec fn split_state(chars: Seq<char>, i: nat) -> (Seq<Seq<char>>, Seq<char>)
    decreases i,
{
    if i == 0 {
        (Seq::empty(), Seq::empty())
    } else {
        let (words, cur) = split_state(chars, (i - 1) as nat);
        let ch = chars[i - 1];
        if is_separator(ch) {
            if cur.len() > 0 {
                (words.push(cur), Seq::empty())
            } else {
                (words, cur)
            }
        } else if cur.len() > 0 && starts_word(chars, i - 1) {
            (words.push(cur), seq![lower_char(ch)])
        } else {
            (words, cur.push(lower_char(ch)))
        }
    }
}

/// The words of an identifier, in ASCII lowercase.
pub open spec fn words_of(name: Seq<char>) -> Seq<Seq<char>> {
    let (words, cur) = split_state(name, name.len());
    if cur.len() > 0 {
        words.push(cur)
    } else {
        words
    }
}

/// The views of a list of strings.
pub open spec fn views(v: Seq<String>) -> Seq<Seq<char>> {
    v.map_values(|s: String| s@)
}

proof fn lemma_views_push(v: Seq<String>, s: String)
    ensures
        views(v.push(s)) == views(v).push(s@),
{
    assert(views(v.push(s)) =~= views(v).push(s@));
}

/// Splits an identifier into lowercase words at `_`, `-`, case changes and
/// letter/digit changes.
pub fn split_words(name: &str) -> (words: Vec<String>)
    ensures
        views(words@) == words_of(name@),
{
    let chars = chars_of(name);
    let mut words: Vec<String> = Vec::new();
    let mut current: Vec<char> = Vec::new();
    let mut index: usize = 0;
    assert(views(words@) =~= Seq::<Seq<char>>::empty());
    while index < chars.len()
        invariant
            chars@ == name@,
            index <= chars.len(),
            split_state(chars@, index as nat) == (views(words@), current@),
        decreases chars.len() - index,
    {
        let ch = chars[index];
        proof {
            assert(split_state(chars@, (index + 1) as nat) == {
                let (w, c) = split_state(chars@, index as nat);
                if is_separator(ch) {
                    if c.len() > 0 { (w.push(c), Seq::<char>::empty()) } else { (w, c) }
                } else if c.len() > 0 && starts_word(chars@, index as int) {
                    (w.push(c), seq![lower_char(ch)])
                } else {
                    (w, c.push(lower_char(ch)))
                }
            });
        }
        if ch == '_' || ch == '-' {
            if current.len() > 0 {
                let word = string_from_chars(&current);
                proof { lemma_views_push(words@, word); }
                words.push(word);
                current = Vec::new();
                assert(current@ =~= Seq::<char>::empty());
            }
        } else {
            let boundary = if current.len() == 0 {
                false
            } else {
                let prev = chars[index - 1];
                let next_is_lower = index + 1 < chars.len() && char_is_lower(chars[index + 1]);
                (char_is_lower(prev) && char_is_upper(ch))
                    || (char_is_alpha(prev) && char_is_digit(ch))
                    || (char_is_digit(prev) && char_is_alpha(ch))
                    || (char_is_upper(prev) && char_is_upper(ch) && next_is_lower)
            };
            if boundary {
                let word = string_from_chars(&current);
                proof { lemma_views_push(words@, word); }
                words.push(word);
                current = Vec::new();
            }
            current.push(ascii_lower(ch));
            proof {
                if boundary {
                    assert(current@ =~= seq![lower_char(ch)]);
                }
            }
        }
        index = index + 1;
    }
    if current.len() > 0 {
        let word = string_from_chars(&current);
        proof { lemma_views_push(words@, word); }
        words.push(word);
    }
    words
}

/// The first char of `word` in ASCII uppercase, the rest unchanged.
pub open spec fn capitalized(word: Seq<char>) -> Seq<char> {
    if word.len() == 0 {
        Seq::empty()
    } else {
        seq![upper_char(word[0])] + word.drop_first()
    }
}

/// Uppercases the first char of `word` (ASCII only).
pub fn capitalize(word: &str) -> (res: String)
    ensures
        res@ == capitalized(word@),
{
    let chars = chars_of(word);
    let mut result = String::new();
    if chars.len() == 0 {
        return result;
    }
    push_char(&mut result, ascii_upper(chars[0]));
    let mut i: usize = 1;
    while i < chars.len()
        invariant
            chars@ == word@,
            1 <= i <= chars.len(),
            result@ == seq![upper_char(chars@[0])] + chars@.subrange(1, i as int),
        decreases chars.len() - i,
    {
        push_char(&mut result, chars[i]);
        i = i + 1;
        assert(result@ =~= seq![upper_char(chars@[0])] + chars@.subrange(1, i as int));
    }
    assert(chars@.subrange(1, chars.len() as int) =~= chars@.drop_first());
    result
}

/// `words` joined with `sep` between each two.
pub open spec fn joined(words: Seq<Seq<char>>, sep: Seq<char>) -> Seq<char>
    decreases words.len(),
{
    if words.len() == 0 {
        Seq::empty()
    } else if words.len() == 1 {
        words[0]
    } else {
        joined(words.drop_last(), sep) + sep + words.last()
    }
}

/// Joins the strings with `sep` between each two.
pub fn join_words(words: &Vec<String>, sep: &str) -> (res: String)
    ensures
        res@ == joined(views(words@), sep@),
{
    let mut res = String::new();
    let mut i: usize = 0;
    assert(views(words@).take(0) =~= Seq::<Seq<char>>::empty());
    while i < words.len()
        invariant
            i <= words.len(),
            res@ == joined(views(words@).take(i as int), sep@),
        decreases words.len() - i,
    {
        let ghost before = res@;
        if i > 0 {
            res.append(sep);
        }
        res.append(words[i].as_str());
        proof {
            let ws = views(words@);
            assert(ws.take(i + 1).drop_last() =~= ws.take(i as int));
            assert(ws.take(i + 1).last() == words@[i as int]@);
            if i == 0 {
                assert(res@ =~= words@[0]@);
            } else {
                assert(res@ =~= before + sep@ + words@[i as int]@);
            }
        }
        i = i + 1;
    }
    assert(views(words@).take(words.len() as int) =~= views(words@));
    res
}

/// Every char of the string in ASCII uppercase.
pub fn upper_string(s: &str) -> (res: String)
    ensures
        res@ == upper_seq(s@),
{
    let chars = chars_of(s);
    let mut res = String::new();
    let mut i: usize = 0;
    while i < chars.len()
        invariant
            chars@ == s@,
            i <= chars.len(),
            res@ == upper_seq(chars@.subrange(0, i as int)),
        decreases chars.len() - i,
    {
        push_char(&mut res, ascii_upper(chars[i]));
        i = i + 1;
        assert(res@ =~= upper_seq(chars@.subrange(0, i as int)));
    }
    assert(chars@.subrange(0, chars.len() as int) =~= chars@);
    res
}

/// Applies `capitalize` to every word.
fn capitalize_all(words: &Vec<String>) -> (res: Vec<String>)
    ensures
        views(res@) == views(words@).map_values(|w: Seq<char>| capitalized(w)),
{
    let mut res: Vec<String> = Vec::new();
    let mut i: usize = 0;
    while i < words.len()
        invariant
            i <= words.len(),
            views(res@) == views(words@).take(i as int).map_values(|w: Seq<char>| capitalized(w)),
        decreases words.len() - i,
    {
        let w = capitalize(words[i].as_str());
        proof { lemma_views_push(res@, w); }
        res.push(w);
        i = i + 1;
        assert(views(res@) =~= views(words@).take(i as int).map_values(|w: Seq<char>| capitalized(w)));
    }
    assert(views(words@).take(words.len() as int) =~= views(words@));
    res
}

/// Uppercases every word.
fn upper_all(words: &Vec<String>) -> (res: Vec<String>)
    ensures
        views(res@) == views(words@).map_values(|w: Seq<char>| upper_seq(w)),
{
    let mut res: Vec<String> = Vec::new();
    let mut i: usize = 0;
    while i < words.len()
        invariant
            i <= words.len(),
            views(res@) == views(words@).take(i as int).map_values(|w: Seq<char>| upper_seq(w)),
        decreases words.len() - i,
    {
        let w = upper_string(words[i].as_str());
        proof { lemma_views_push(res@, w); }
        res.push(w);
        i = i + 1;
        assert(views(res@) =~= views(words@).take(i as int).map_values(|w: Seq<char>| upper_seq(w)));
    }
    assert(views(words@).take(words.len() as int) =~= views(words@));
    res
}

/// The case conventions of serde's `rename_all`.
#[derive(Clone, Copy, Debug, PartialEq, Eq, Structural)]
pub enum RenameRule {
    LowerCase,
    UpperCase,
    PascalCase,
    CamelCase,
    SnakeCase,
    ScreamingSnakeCase,
    KebabCase,
    ScreamingKebabCase,
}

/// The name that `rule` makes of the given words.
pub open spec fn rule_words(rule: RenameRule, words: Seq<Seq<char>>) -> Seq<char> {
    match rule {
        RenameRule::LowerCase => joined(words, Seq::empty()),
        RenameRule::UpperCase => upper_seq(joined(words, Seq::empty())),
        RenameRule::PascalCase => joined(words.map_values(|w: Seq<char>| capitalized(w)), Seq::empty()),
        RenameRule::CamelCase => if words.len() == 0 {
            Seq::empty()
        } else {
            words[0] + joined(words.drop_first().map_values(|w: Seq<char>| capitalized(w)), Seq::empty())
        },
        RenameRule::SnakeCase => joined(words, seq!['_']),
        RenameRule::ScreamingSnakeCase => joined(words.map_values(|w: Seq<char>| upper_seq(w)), seq!['_']),
        RenameRule::KebabCase => joined(words, seq!['-']),
        RenameRule::ScreamingKebabCase => joined(words.map_values(|w: Seq<char>| upper_seq(w)), seq!['-']),
    }
}

/// The name that `rule` makes of the identifier `name`.
pub open spec fn renamed(rule: RenameRule, name: Seq<char>) -> Seq<char> {
    rule_words(rule, words_of(name))
}

/// The rule that a `rename_all` value names, if it names one.
pub open spec fn rule_named(value: Seq<char>) -> Option<RenameRule> {
    if value == "lowercase"@ {
        Some(RenameRule::LowerCase)
    } else if value == "UPPERCASE"@ {
        Some(RenameRule::UpperCase)
    } else if value == "PascalCase"@ {
        Some(RenameRule::PascalCase)
    } else if value == "camelCase"@ {
        Some(RenameRule::CamelCase)
    } else if value == "snake_case"@ {
        Some(RenameRule::SnakeCase)
    } else if value == "SCREAMING_SNAKE_CASE"@ {
        Some(RenameRule::ScreamingSnakeCase)
    } else if value == "kebab-case"@ {
        Some(RenameRule::KebabCase)
    } else if value == "SCREAMING-KEBAB-CASE"@ {
        Some(RenameRule::ScreamingKebabCase)
    } else {
        None
    }
}

impl RenameRule {
    /// Reads a `rename_all` value; any other value than the eight
    /// conventions is refused.
    pub fn parse(value: &str) -> (res: Result<Self, DeriveError>)
        ensures
            match rule_named(value@) {
                Some(rule) => res == Ok::<RenameRule, DeriveError>(rule),
                None => res_view(res) == Err::<RenameRule, _>(plain(DeriveErrorKind::UnsupportedRenameAll)),
            },
    {
        if str_eq(value, "lowercase") {
            Ok(Self::LowerCase)
        } else if str_eq(value, "UPPERCASE") {
            Ok(Self::UpperCase)
        } else if str_eq(value, "PascalCase") {
            Ok(Self::PascalCase)
        } else if str_eq(value, "camelCase") {
            Ok(Self::CamelCase)
        } else if str_eq(value, "snake_case") {
            Ok(Self::SnakeCase)
        } else if str_eq(value, "SCREAMING_SNAKE_CASE") {
            Ok(Self::ScreamingSnakeCase)
        } else if str_eq(value, "kebab-case") {
            Ok(Self::KebabCase)
        } else if str_eq(value, "SCREAMING-KEBAB-CASE") {
            Ok(Self::ScreamingKebabCase)
        } else {
            Err(DeriveError::new(DeriveErrorKind::UnsupportedRenameAll))
        }
    }

    /// The name of a field under this rule.
    pub fn apply_to_field(self, name: &str) -> (res: String)
        ensures
            res@ == renamed(self, name@),
    {
        self.apply(name)
    }

    /// The name of a variant under this rule.
    pub fn apply_to_variant(self, name: &str) -> (res: String)
        ensures
            res@ == renamed(self, name@),
    {
        self.apply(name)
    }

    /// Splits `name` into words and rejoins them in this convention.
    pub fn apply(self, name: &str) -> (res: String)
        ensures
            res@ == renamed(self, name@),
    {
        let words = split_words(name);
        proof {
            reveal_strlit("");
            assert(""@ =~= Seq::<char>::empty());
        }
        match self {
            Self::LowerCase => join_words(&words, ""),
            Self::UpperCase => {
                let joined = join_words(&words, "");
                upper_string(joined.as_str())
            },
            Self::PascalCase => {
                let caps = capitalize_all(&words);
                join_words(&caps, "")
            },
            Self::CamelCase => {
                if words.len() == 0 {
                    return String::new();
                }
                let mut rest: Vec<String> = Vec::new();
                let mut i: usize = 1;
                while i < words.len()
                    invariant
                        1 <= i <= words.len(),
                        views(rest@) == views(words@).subrange(1, i as int),
                    decreases words.len() - i,
                {
                    let w = words[i].clone();
                    proof { lemma_views_push(rest@, w); }
                    rest.push(w);
                    i = i + 1;
                    assert(views(rest@) =~= views(words@).subrange(1, i as int));
                }
                assert(views(words@).subrange(1, words.len() as int) =~= views(words@).drop_first());
                let caps = capitalize_all(&rest);
                let tail = join_words(&caps, "");
                let mut result = words[0].clone();
                result.append(tail.as_str());
                result
            },
            Self::SnakeCase => {
                proof { reveal_strlit("_"); }
                let r = join_words(&words, "_");
                assert("_"@ =~= seq!['_']);
                r
            },
            Self::ScreamingSnakeCase => {
                let upper = upper_all(&words);
                proof { reveal_strlit("_"); }
                let r = join_words(&upper, "_");
                assert("_"@ =~= seq!['_']);
                r
            },
            Self::KebabCase => {
                proof { reveal_strlit("-"); }
                let r = join_words(&words, "-");
                assert("-"@ =~= seq!['-']);
                r
            },
            Self::ScreamingKebabCase => {
                let upper = upper_all(&words);
                proof { reveal_strlit("-"); }
                let r = join_words(&upper, "-");
                assert("-"@ =~= seq!['-']);
                r
            },
        }
    }
}

} // verus!
