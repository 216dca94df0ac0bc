//! Policy templates: the policy data model, and the naming and
//! description rules the loader applies.
//!
//! Reading template files from disk and parsing their JSON are a
//! driver's work; the library holds the parsed values and the pure
//! rules.

use vstd::prelude::*;
use vstd::string::StringExecFns;

use crate::text::{is_space_char, join_spaced, join_with_space, push_char, upper_char};

verus! {

/// A policy's action clause: one action name or several.
#[derive(Debug)]
pub enum ActionValue {
    Single(String),
    Multiple(Vec<String>),
}

/// A policy's resource clause: one resource name or several.
#[derive(Debug)]
pub enum ResourceValue {
    Single(String),
    Multiple(Vec<String>),
}

/// One condition clause, as plain text: its operator and the rendered
/// body it applies.
#[derive(Debug)]
pub struct ConditionEntry {
    pub operator: String,
    pub body: String,
}

/// One statement of a policy.
#[derive(Debug)]
pub struct Statement {
    pub effect: String,
    pub action: Option<ActionValue>,
    pub not_action: Option<ActionValue>,
    pub resource: ResourceValue,
    pub condition: Option<Vec<ConditionEntry>>,
    pub sid: Option<String>,
}

/// A policy document: its version and its statements.
#[derive(Debug)]
pub struct ScpPolicy {
    pub version: String,
    pub statement: Vec<Statement>,
}

/// A loaded template: display metadata around a policy.
#[derive(Debug)]
pub struct ScpTemplate {
    pub name: String,
    pub description: String,
    pub category: String,
    pub policy: ScpPolicy,
    pub file_path: String,
}

/// Applies the loader's naming and description rules to loaded policies.
#[derive(Debug)]
pub struct TemplateLoader {
    pub templates_dir: String,
}

/// A character that separates words of a file name: whitespace, or the
/// dash and underscore the loader replaces with spaces.
pub open spec fn is_word_sep(c: char) -> bool {
    is_space_char(c) || c == '-' || c == '_'
}

/// The words of a file name, scanned left to right with `cur` the word
/// read so far; empty words are dropped.
pub open spec fn split_words_rec(s: Seq<char>, cur: Seq<char>) -> Seq<Seq<char>>
    decreases s.len(),
{
    if s.len() == 0 {
        if cur.len() > 0 {
            seq![cur]
        } else {
            seq![]
        }
    } else if is_word_sep(s[0]) {
        (if cur.len() > 0 {
            seq![cur]
        } else {
            seq![]
        }) + split_words_rec(s.drop_first(), Seq::empty())
    } else {
        split_words_rec(s.drop_first(), cur.push(s[0]))
    }
}

/// A word with its first character uppercased.
pub open spec fn capitalize_spec(w: Seq<char>) -> Seq<char> {
    if w.len() == 0 {
        w
    } else {
        seq![upper_char(w[0])] + w.subrange(1, w.len() as int)
    }
}

/// The displayed form of a file name: its words, each capitalized,
/// joined with single spaces.
pub open spec fn format_name_spec(s: Seq<char>) -> Seq<char> {
    join_spaced(split_words_rec(s, Seq::empty()).map_values(|w: Seq<char>| capitalize_spec(w)))
}

fn is_sep(c: char) -> (r: bool)
    ensures
        r == is_word_sep(c),
{
    c == ' ' || c == '\t' || c == '\n' || c == '\r' || c == '-' || c == '_'
}

fn split_words(s: &str) -> (r: Vec<String>)
    ensures
        r@.map_values(|x: String| x@) == split_words_rec(s@, Seq::empty()),
{
    let n = s.unicode_len();
    let mut out: Vec<String> = Vec::new();
    let mut word_start: usize = 0;
    let mut i: usize = 0;
    proof {
        assert(s@.subrange(0, n as int) =~= s@);
        assert(s@.subrange(0, 0) =~= Seq::<char>::empty());
    }
    while i < n
        invariant
            n == s@.len(),
            word_start <= i <= n,
            split_words_rec(s@, Seq::empty()) == out@.map_values(|x: String| x@)
                + split_words_rec(
                s@.subrange(i as int, n as int),
                s@.subrange(word_start as int, i as int),
            ),
        decreases n - i,
    {
        let c = s.get_char(i);
        if is_sep(c) {
            let ghost old_out = out@;
            if i > word_start {
                let word = s.substring_char(word_start, i);
                out.push(word.to_owned());
            }
            proof {
                if s@.subrange(word_start as int, i as int).len() > 0 {
                    assert(out@.map_values(|x: String| x@) =~= old_out.map_values(|x: String| x@)
                        + seq![s@.subrange(word_start as int, i as int)]);
                } else {
                    assert(out@.map_values(|x: String| x@) =~= old_out.map_values(
                        |x: String| x@,
                    ));
                }
                assert(s@.subrange(i as int, n as int).drop_first() =~= s@.subrange(
                    i as int + 1,
                    n as int,
                ));
                assert(s@.subrange(i as int + 1, i as int + 1) =~= Seq::<char>::empty());
            }
            i = i + 1;
            word_start = i;
        } else {
            proof {
                assert(s@.subrange(i as int, n as int).drop_first() =~= s@.subrange(
                    i as int + 1,
                    n as int,
                ));
                assert(s@.subrange(word_start as int, i as int).push(s@[i as int]) =~= s@
                    .subrange(word_start as int, i as int + 1));
            }
            i = i + 1;
        }
    }
    let ghost old_out = out@;
    if n > word_start {
        let word = s.substring_char(word_start, n);
        out.push(word.to_owned());
    }
    proof {
        if s@.subrange(word_start as int, n as int).len() > 0 {
            assert(out@.map_values(|x: String| x@) =~= old_out.map_values(|x: String| x@) + seq![
                s@.subrange(word_start as int, n as int),
            ]);
        } else {
            assert(out@.map_values(|x: String| x@) =~= old_out.map_values(|x: String| x@));
        }
        assert(s@.subrange(n as int, n as int) =~= Seq::<char>::empty());
        assert(split_words_rec(s@, Seq::empty()) =~= out@.map_values(|x: String| x@));
    }
    out
}

fn capitalize_word(w: &str) -> (r: String)
    ensures
        r@ == capitalize_spec(w@),
{
    let n = w.unicode_len();
    if n == 0 {
        return String::new();
    }
    let mut r = String::new();
    push_char(&mut r, crate::text::ascii_upper_char(w.get_char(0)));
    let rest = w.substring_char(1, n);
    r.append(rest);
    proof {
        assert(r@ =~= capitalize_spec(w@));
    }
    r
}

impl TemplateLoader {
    /// A loader for templates under the given directory.
    pub fn new(templates_dir: String) -> (r: Self)
        ensures
            r.templates_dir == templates_dir,
    {
        TemplateLoader { templates_dir }
    }

    /// The displayed name of a template file: dashes and underscores
    /// become spaces, every word is capitalized, words are joined with
    /// single spaces.
    pub fn format_name(&self, file_name: &str) -> (r: String)
        ensures
            r@ == format_name_spec(file_name@),
    {
        let words = split_words(file_name);
        let mut caps: Vec<String> = Vec::new();
        let mut i: usize = 0;
        while i < words.len()
            invariant
                i <= words@.len(),
                caps@.len() == i,
                forall|j: int|
                    0 <= j < i ==> (#[trigger] caps@[j])@ == capitalize_spec(words@[j]@),
            decreases words@.len() - i,
        {
            caps.push(capitalize_word(words[i].as_str()));
            i = i + 1;
        }
        proof {
            assert(caps@.map_values(|x: String| x@) =~= split_words_rec(
                file_name@,
                Seq::empty(),
            ).map_values(|w: Seq<char>| capitalize_spec(w)));
        }
        join_with_space(&caps)
    }

    /// A template's description: the first statement's sid, or the
    /// loader's placeholder.
    pub fn extract_description(&self, policy: &ScpPolicy) -> (r: String)
        ensures
            policy.statement@.len() > 0 ==> (policy.statement@[0].sid matches Some(s) ==> r == s),
            policy.statement@.len() == 0 || policy.statement@[0].sid is None ==> r@
                == "Sin descripción"@,
    {
        if policy.statement.len() > 0 {
            match &policy.statement[0].sid {
                Some(sid) => sid.clone(),
                None => String::from_str("Sin descripción"),
            }
        } else {
            String::from_str("Sin descripción")
        }
    }
}

/// A character that belongs to a word when pascal-casing: an ASCII
/// letter or digit; everything else separates words.
pub open spec fn is_alnum_char(c: char) -> bool {
    48 <= c as u32 <= 57 || 65 <= c as u32 <= 90 || 97 <= c as u32 <= 122
}

/// The maximal runs of word characters, scanned left to right with
/// `cur` the run read so far.
pub open spec fn split_alnum_rec(s: Seq<char>, cur: Seq<char>) -> Seq<Seq<char>>
    decreases s.len(),
{
    if s.len() == 0 {
        if cur.len() > 0 {
            seq![cur]
        } else {
            seq![]
        }
    } else if !is_alnum_char(s[0]) {
        (if cur.len() > 0 {
            seq![cur]
        } else {
            seq![]
        }) + split_alnum_rec(s.drop_first(), Seq::empty())
    } else {
        split_alnum_rec(s.drop_first(), cur.push(s[0]))
    }
}

/// A word in pascal case: its first character uppercased, the rest
/// lowercased.
pub open spec fn pascal_word_spec(w: Seq<char>) -> Seq<char> {
    if w.len() == 0 {
        w
    } else {
        seq![upper_char(w[0])] + w.subrange(1, w.len() as int).map_values(
            |c: char| crate::text::lower_char(c),
        )
    }
}

/// The pieces run together without separators.
pub open spec fn concat_all(parts: Seq<Seq<char>>) -> Seq<char>
    decreases parts.len(),
{
    if parts.len() == 0 {
        Seq::empty()
    } else {
        concat_all(parts.drop_last()) + parts.last()
    }
}

/// The pascal-cased form of free text: its runs of ASCII letters and
/// digits, each uppercased at its head and lowercased after, run
/// together; everything between them is dropped.
pub open spec fn pascal_case_spec(s: Seq<char>) -> Seq<char> {
    concat_all(split_alnum_rec(s, Seq::empty()).map_values(|w: Seq<char>| pascal_word_spec(w)))
}

fn is_alnum(c: char) -> (r: bool)
    ensures
        r == is_alnum_char(c),
{
    let v = c as u32;
    (48 <= v && v <= 57) || (65 <= v && v <= 90) || (97 <= v && v <= 122)
}

fn split_alnum(s: &str) -> (r: Vec<String>)
    ensures
        r@.map_values(|x: String| x@) == split_alnum_rec(s@, Seq::empty()),
{
    let n = s.unicode_len();
    let mut out: Vec<String> = Vec::new();
    let mut word_start: usize = 0;
    let mut i: usize = 0;
    proof {
        assert(s@.subrange(0, n as int) =~= s@);
        assert(s@.subrange(0, 0) =~= Seq::<char>::empty());
    }
    while i < n
        invariant
            n == s@.len(),
            word_start <= i <= n,
            split_alnum_rec(s@, Seq::empty()) == out@.map_values(|x: String| x@)
                + split_alnum_rec(
                s@.subrange(i as int, n as int),
                s@.subrange(word_start as int, i as int),
            ),
        decreases n - i,
    {
        let c = s.get_char(i);
        if !is_alnum(c) {
            let ghost old_out = out@;
            if i > word_start {
                let word = s.substring_char(word_start, i);
                out.push(word.to_owned());
            }
            proof {
                if s@.subrange(word_start as int, i as int).len() > 0 {
                    assert(out@.map_values(|x: String| x@) =~= old_out.map_values(|x: String| x@)
                        + seq![s@.subrange(word_start as int, i as int)]);
                } else {
                    assert(out@.map_values(|x: String| x@) =~= old_out.map_values(
                        |x: String| x@,
                    ));
                }
                assert(s@.subrange(i as int, n as int).drop_first() =~= s@.subrange(
                    i as int + 1,
                    n as int,
                ));
                assert(s@.subrange(i as int + 1, i as int + 1) =~= Seq::<char>::empty());
            }
            i = i + 1;
            word_start = i;
        } else {
            proof {
                assert(s@.subrange(i as int, n as int).drop_first() =~= s@.subrange(
                    i as int + 1,
                    n as int,
                ));
                assert(s@.subrange(word_start as int, i as int).push(s@[i as int]) =~= s@
                    .subrange(word_start as int, i as int + 1));
            }
            i = i + 1;
        }
    }
    let ghost old_out = out@;
    if n > word_start {
        let word = s.substring_char(word_start, n);
        out.push(word.to_owned());
    }
    proof {
        if s@.subrange(word_start as int, n as int).len() > 0 {
            assert(out@.map_values(|x: String| x@) =~= old_out.map_values(|x: String| x@) + seq![
                s@.subrange(word_start as int, n as int),
            ]);
        } else {
            assert(out@.map_values(|x: String| x@) =~= old_out.map_values(|x: String| x@));
        }
        assert(s@.subrange(n as int, n as int) =~= Seq::<char>::empty());
        assert(split_alnum_rec(s@, Seq::empty()) =~= out@.map_values(|x: String| x@));
    }
    out
}

fn pascal_word(w: &str) -> (r: String)
    ensures
        r@ == pascal_word_spec(w@),
{
    let n = w.unicode_len();
    if n == 0 {
        return String::new();
    }
    let mut r = String::new();
    push_char(&mut r, crate::text::ascii_upper_char(w.get_char(0)));
    let mut i: usize = 1;
    while i < n
        invariant
            n == w@.len(),
            1 <= i <= n,
            r@.len() == i,
            r@[0] == upper_char(w@[0]),
            forall|j: int| 1 <= j < i ==> r@[j] == crate::text::lower_char(w@[j]),
        decreases n - i,
    {
        push_char(&mut r, crate::text::ascii_lower_char(w.get_char(i)));
        i = i + 1;
    }
    proof {
        assert(r@ =~= pascal_word_spec(w@));
    }
    r
}

/// Converts free text to pascal case, the shape custom policy names are
/// normalized to.
pub fn to_pascal_case(input: &str) -> (r: String)
    ensures
        r@ == pascal_case_spec(input@),
{
    let words = split_alnum(input);
    let mut r = String::new();
    let mut i: usize = 0;
    while i < words.len()
        invariant
            i <= words@.len(),
            r@ == concat_all(
                words@.map_values(|x: String| x@).map_values(
                    |w: Seq<char>| pascal_word_spec(w),
                ).subrange(0, i as int),
            ),
        decreases words@.len() - i,
    {
        let piece = pascal_word(words[i].as_str());
        r.append(piece.as_str());
        proof {
            let pieces = words@.map_values(|x: String| x@).map_values(
                |w: Seq<char>| pascal_word_spec(w),
            );
            assert(pieces.subrange(0, i as int + 1).drop_last() =~= pieces.subrange(0, i as int));
            assert(pieces.subrange(0, i as int + 1).last() == pieces[i as int]);
        }
        i = i + 1;
    }
    proof {
        let pieces = words@.map_values(|x: String| x@).map_values(
            |w: Seq<char>| pascal_word_spec(w),
        );
        assert(pieces.subrange(0, pieces.len() as int) =~= pieces);
    }
    r
}

/// Decides whether a template matches a search term, ignoring ASCII
/// case: the term occurs in the template's name or its category.
pub fn template_matches(template: &ScpTemplate, term: &str) -> (r: bool)
    ensures
        r == (crate::classify::contains_seq(
            crate::text::to_upper_seq(template.name@),
            crate::text::to_upper_seq(term@),
        ) || crate::classify::contains_seq(
            crate::text::to_upper_seq(template.category@),
            crate::text::to_upper_seq(term@),
        )),
{
    let term_upper = crate::text::to_ascii_upper(term);
    let name_upper = crate::text::to_ascii_upper(template.name.as_str());
    let category_upper = crate::text::to_ascii_upper(template.category.as_str());
    crate::classify::contains_substr(name_upper.as_str(), term_upper.as_str())
        || crate::classify::contains_substr(category_upper.as_str(), term_upper.as_str())
}

} // verus!
