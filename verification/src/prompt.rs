//! The words exchanged with the operator when a permission is asked for.
//!
//! Writing the question and reading the answer are left to the embedder;
//! how the question reads and what an answer means is settled here.

use crate::permission::{Category, Reply};
use crate::text::chars_of;
use vstd::prelude::*;

verus! {

/// How a category is called in a question.
pub open spec fn category_noun(category: Category) -> Seq<char> {
    match category {
        Category::Read => "read"@,
        Category::Write => "write"@,
        Category::Net => "network"@,
        Category::Env => "environment"@,
        Category::Run => "run"@,
        Category::Plugin => "plugin"@,
        Category::HighResTime => "high resolution time"@,
    }
}

/// The question that is put to the operator.
pub open spec fn question(category: Category, target: Seq<char>) -> Seq<char> {
    "tumu requests "@ + category_noun(category) + " access to \""@ + target
        + "\". Grant? [y/n] "@
}

/// Whether `c` is a blank, a tab or a line break.
pub open spec fn is_space(c: char) -> bool {
    c == ' ' || c == '\t' || c == '\n' || c == '\r'
}

/// `text` without the white space that it begins with.
pub open spec fn skip_leading(text: Seq<char>) -> Seq<char>
    decreases text.len(),
{
    if text.len() > 0 && is_space(text[0]) {
        skip_leading(text.drop_first())
    } else {
        text
    }
}

/// `text` without the white space that it ends in.
pub open spec fn skip_trailing(text: Seq<char>) -> Seq<char>
    decreases text.len(),
{
    if text.len() > 0 && is_space(text.last()) {
        skip_trailing(text.drop_last())
    } else {
        text
    }
}

/// `text` without the white space around it.
pub open spec fn trimmed(text: Seq<char>) -> Seq<char> {
    skip_trailing(skip_leading(text))
}

/// Whether an answer confirms: it reads `y`, `Y` or `yes`, white space aside.
pub open spec fn says_yes(answer: Seq<char>) -> bool {
    let word = trimmed(answer);
    word == seq!['y'] || word == seq!['Y'] || word == seq!['y', 'e', 's']
}

/// What an answer means. No answer means that nobody could be asked; an
/// answer that does not confirm refuses.
pub open spec fn reply_of(answer: Option<Seq<char>>) -> Reply {
    match answer {
        None => Reply::Unavailable,
        Some(line) => if says_yes(line) {
            Reply::Confirm
        } else {
            Reply::Refuse
        },
    }
}

/// How a category is called in a question.
pub fn noun(category: Category) -> (noun: &'static str)
    ensures
        noun@ == category_noun(category),
{
    match category {
        Category::Read => "read",
        Category::Write => "write",
        Category::Net => "network",
        Category::Env => "environment",
        Category::Run => "run",
        Category::Plugin => "plugin",
        Category::HighResTime => "high resolution time",
    }
}

/// The question to put to the operator before `target` is accessed.
pub fn ask(category: Category, target: &str) -> (text: String)
    ensures
        text@ == question(category, target@),
{
    let mut text = "tumu requests ".to_string();
    text.append(noun(category));
    text.append(" access to \"");
    text.append(target);
    text.append("\". Grant? [y/n] ");
    text
}

/// Whether `c` is a blank, a tab or a line break.
pub fn is_blank(c: char) -> (b: bool)
    ensures
        b == is_space(c),
{
    c == ' ' || c == '\t' || c == '\n' || c == '\r'
}

/// Where `text` begins and ends once the white space around it is left out.
fn trim_bounds(text: &Vec<char>) -> (r: (usize, usize))
    ensures
        r.0 <= r.1 <= text.len(),
        text@.subrange(r.0 as int, r.1 as int) == trimmed(text@),
{
    let n = text.len();
    let mut a: usize = 0;
    assert(text@.subrange(0, n as int) =~= text@);
    while a < n && is_blank(text[a])
        invariant
            a <= n,
            n == text.len(),
            skip_leading(text@) == skip_leading(text@.subrange(a as int, n as int)),
        decreases n - a,
    {
        assert(text@.subrange(a as int, n as int).drop_first() =~= text@.subrange(
            a as int + 1,
            n as int,
        ));
        a += 1;
    }
    let ghost body = text@.subrange(a as int, n as int);
    assert(skip_leading(text@) == body) by {
        if a < n {
            assert(body[0] == text[a as int]);
        }
    }
    let mut b: usize = n;
    while b > a && is_blank(text[b - 1])
        invariant
            a <= b <= n,
            n == text.len(),
            skip_trailing(body) == skip_trailing(text@.subrange(a as int, b as int)),
        decreases b - a,
    {
        assert(text@.subrange(a as int, b as int).drop_last() =~= text@.subrange(
            a as int,
            b as int - 1,
        ));
        assert(text@.subrange(a as int, b as int).last() == text[b as int - 1]);
        b -= 1;
    }
    assert(skip_trailing(body) == text@.subrange(a as int, b as int)) by {
        let word = text@.subrange(a as int, b as int);
        if b > a {
            assert(word.last() == text[b as int - 1]);
        }
    }
    (a, b)
}

/// What the operator's answer means. `answer` is the line that was read, or
/// nothing where no line could be read.
pub fn read_reply(answer: Option<&str>) -> (reply: Reply)
    ensures
        reply == reply_of(
            match answer {
                Some(line) => Some(line@),
                None => None,
            },
        ),
{
    match answer {
        None => Reply::Unavailable,
        Some(line) => {
            let text = chars_of(line);
            let (a, b) = trim_bounds(&text);
            let ghost word = text@.subrange(a as int, b as int);
            let yes = if b - a == 1 {
                assert(word =~= seq![text[a as int]]);
                text[a] == 'y' || text[a] == 'Y'
            } else if b - a == 3 {
                assert(word =~= seq![text[a as int], text[a as int + 1], text[a as int + 2]]);
                text[a] == 'y' && text[a + 1] == 'e' && text[a + 2] == 's'
            } else {
                false
            };
            proof {
                if !yes {
                    if word == seq!['y'] || word == seq!['Y'] {
                        assert(word.len() == 1);
                        assert(word[0] == text[a as int]);
                    }
                    if word == seq!['y', 'e', 's'] {
                        assert(word.len() == 3);
                        assert(word[0] == text[a as int]);
                        assert(word[1] == text[a as int + 1]);
                        assert(word[2] == text[a as int + 2]);
                    }
                }
            }
            if yes {
                Reply::Confirm
            } else {
                Reply::Refuse
            }
        },
    }
}

} // verus!
