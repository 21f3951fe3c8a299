//! Command lines for a POSIX shell: how they are written, and, in
//! [`reader`], how the shell reads them.
//!
//! A text is written between single quotes, where the shell takes every
//! character as it stands. A single quote inside the text closes the quoted
//! stretch, stands for itself behind a backslash, and opens the next stretch.

pub mod reader;

use vstd::prelude::*;

pub use self::reader::{
    lemma_quote_round_trip, lemma_rendered_reads_back, read_line, shell_tokens, shell_words,
    then_tokens, token_of, token_views, tokens_of, unquote, unquoted, word_so_far, Reading,
    ShellToken, Token,
};

verus! {

/// How one character of a text is written inside a quoted word.
pub open spec fn escaped_char(c: char) -> Seq<char> {
    if c == '\'' {
        seq!['\'', '\\', '\'', '\'']
    } else {
        seq![c]
    }
}

/// How a text is written between the opening and the closing quote.
pub open spec fn escaped(text: Seq<char>) -> Seq<char>
    decreases text.len(),
{
    if text.len() == 0 {
        Seq::empty()
    } else {
        escaped(text.drop_last()) + escaped_char(text.last())
    }
}

/// The word that stands for a text.
pub open spec fn quoted(text: Seq<char>) -> Seq<char> {
    seq!['\''] + escaped(text) + seq!['\'']
}

/// Whether the shell takes a character outside quotes as a part of a word, as
/// it stands: a letter or a digit of ASCII, or one of `-`, `_`, `.`, `/` and `!`.
pub open spec fn is_plain(c: char) -> bool {
    ||| 'a' <= c <= 'z'
    ||| 'A' <= c <= 'Z'
    ||| '0' <= c <= '9'
    ||| c == '-'
    ||| c == '_'
    ||| c == '.'
    ||| c == '/'
    ||| c == '!'
}

/// Whether a text can stand in a command line as a word without quotes.
pub open spec fn is_plain_word(word: Seq<char>) -> bool {
    word.len() > 0 && forall|i: int| 0 <= i < word.len() ==> is_plain(#[trigger] word[i])
}

/// One item of a command line.
pub enum Item {
    /// A word that is written as it stands where it is a plain word, and quoted
    /// where it is not.
    Plain(Seq<char>),
    /// A word that is written quoted.
    Quoted(Seq<char>),
    /// `&&`: what follows runs only if what came before has succeeded.
    AndThen,
    /// `>`: the output goes into the file that the next word names.
    Into,
}

/// How an item is written.
pub open spec fn written(item: Item) -> Seq<char> {
    match item {
        Item::Plain(word) => if is_plain_word(word) {
            word
        } else {
            quoted(word)
        },
        Item::Quoted(text) => quoted(text),
        Item::AndThen => seq!['&', '&'],
        Item::Into => seq!['>'],
    }
}

/// The command line of some items: each as it is written, with one space
/// between two of them.
pub open spec fn rendered(items: Seq<Item>) -> Seq<char>
    decreases items.len(),
{
    if items.len() == 0 {
        Seq::empty()
    } else if items.len() == 1 {
        written(items.first())
    } else {
        written(items.first()) + seq![' '] + rendered(items.drop_first())
    }
}

/// Writing one more character of the text adds that character's escaped form.
proof fn lemma_escaped_push(text: Seq<char>, c: char)
    ensures
        escaped(text.push(c)) == escaped(text) + escaped_char(c),
{
    assert(text.push(c).drop_last() =~= text);
}

/// One more item goes behind the others, after a space where there are others.
proof fn lemma_rendered_push(items: Seq<Item>, item: Item)
    ensures
        rendered(items.push(item)) == if items.len() == 0 {
            written(item)
        } else {
            rendered(items) + seq![' '] + written(item)
        },
    decreases items.len(),
{
    let all = items.push(item);
    if items.len() == 0 {
    } else {
        assert(all.first() == items.first());
        assert(all.drop_first() =~= items.drop_first().push(item));
        lemma_rendered_push(items.drop_first(), item);
        if items.len() == 1 {
            assert(items.drop_first().len() == 0);
            assert(rendered(all) =~= rendered(items) + seq![' '] + written(item));
        } else {
            assert(rendered(all) =~= rendered(items) + seq![' '] + written(item));
        }
    }
}

/// Quotes `text` as one shell word, which the shell reads back as exactly that
/// text.
pub fn quote(text: &str) -> (word: String)
    ensures
        word@ == quoted(text@),
        unquoted(word@) == Some(text@),
{
    proof {
        lemma_quote_round_trip(text@);
    }
    let mut word = String::new();
    word.push('\'');
    for c in it: text.chars()
        invariant
            it.seq() == text@,
            word@ == seq!['\''] + escaped(text@.take(it.index())),
    {
        proof {
            lemma_escaped_push(text@.take(it.index()), c);
            assert(text@.take(it.index()).push(c) =~= text@.take(it.index() + 1));
        }
        if c == '\'' {
            word.push('\'');
            word.push('\\');
            word.push('\'');
            word.push('\'');
        } else {
            word.push(c);
        }
    }
    assert(text@.take(text@.len() as int) =~= text@);
    word.push('\'');
    word
}

/// An item of a command line that is to be written.
#[derive(Debug, Clone, Copy, PartialEq, Eq)]
pub enum LineItem<'a> {
    /// A word to write as it stands where it is a plain word, and quoted where
    /// it is not.
    Plain(&'a str),
    /// A text to write quoted.
    Quoted(&'a str),
    /// `&&`.
    AndThen,
    /// `>`.
    Into,
}

impl<'a> View for LineItem<'a> {
    type V = Item;

    open spec fn view(&self) -> Item {
        match self {
            LineItem::Plain(word) => Item::Plain(word@),
            LineItem::Quoted(text) => Item::Quoted(text@),
            LineItem::AndThen => Item::AndThen,
            LineItem::Into => Item::Into,
        }
    }
}

/// The items that a list of items to write stands for.
pub open spec fn item_views(items: Seq<LineItem<'_>>) -> Seq<Item> {
    items.map_values(|item: LineItem<'_>| item@)
}

/// Whether the shell takes the character outside quotes as a part of a word.
pub fn is_plain_char(c: char) -> (plain: bool)
    ensures
        plain == is_plain(c),
{
    ('a' <= c && c <= 'z') || ('A' <= c && c <= 'Z') || ('0' <= c && c <= '9') || c == '-' || c
        == '_' || c == '.' || c == '/' || c == '!'
}

/// Whether a text can stand in a command line as a word without quotes.
pub fn is_plain_text(word: &str) -> (plain: bool)
    ensures
        plain == is_plain_word(word@),
{
    if word.is_empty() {
        return false;
    }
    for c in it: word.chars()
        invariant
            it.seq() == word@,
            forall|j: int| 0 <= j < it.index() ==> is_plain(#[trigger] word@[j]),
    {
        if !is_plain_char(c) {
            assert(!is_plain(word@[it.index()]));
            return false;
        }
    }
    true
}

/// Writes the command line of some items. The shell reads from the line
/// exactly the tokens of the items, whatever the items hold.
pub fn render(items: &Vec<LineItem<'_>>) -> (line: String)
    ensures
        line@ == rendered(item_views(items@)),
        shell_tokens(line@) == Some(tokens_of(item_views(items@))),
{
    proof {
        lemma_rendered_reads_back(item_views(items@));
    }
    let mut line = String::new();
    let mut i: usize = 0;
    while i < items.len()
        invariant
            i <= items.len(),
            line@ == rendered(item_views(items@).take(i as int)),
        decreases items.len() - i,
    {
        proof {
            let done = item_views(items@).take(i as int);
            lemma_rendered_push(done, items@[i as int]@);
            assert(done.push(items@[i as int]@) =~= item_views(items@).take(i + 1));
            reveal_strlit(" ");
            reveal_strlit("&&");
            reveal_strlit(">");
            assert(" "@ =~= seq![' ']);
            assert("&&"@ =~= seq!['&', '&']);
            assert(">"@ =~= seq!['>']);
        }
        if i > 0 {
            line.append(" ");
        }
        match &items[i] {
            LineItem::Plain(word) => if is_plain_text(word) {
                line.append(word)
            } else {
                line.append(quote(word).as_str())
            },
            LineItem::Quoted(text) => line.append(quote(text).as_str()),
            LineItem::AndThen => line.append("&&"),
            LineItem::Into => line.append(">"),
        }
        i += 1;
    }
    assert(item_views(items@).take(i as int) =~= item_views(items@));
    line
}

} // verus!
