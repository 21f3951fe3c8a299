//! How the shell reads a command line: the words, each as the text that it
//! stands for, and the operators between them.

use vstd::prelude::*;

use crate::shell::{
    escaped, escaped_char, is_plain, is_plain_char, is_plain_word, quoted, rendered, written, Item,
};
use crate::text::opt_view;

verus! {

/// What the shell makes of a part of a command line.
pub enum Token {
    /// A word, as the text that it stands for.
    Word(Seq<char>),
    /// The operator `&&`.
    AndThen,
    /// The operator `>`.
    Into,
}

/// What the shell makes of an item.
pub open spec fn token_of(item: Item) -> Token {
    match item {
        Item::Plain(word) => Token::Word(word),
        Item::Quoted(text) => Token::Word(text),
        Item::AndThen => Token::AndThen,
        Item::Into => Token::Into,
    }
}

/// What the shell makes of some items.
pub open spec fn tokens_of(items: Seq<Item>) -> Seq<Token> {
    items.map_values(|item: Item| token_of(item))
}

/// Where the shell is while it reads a command line.
#[derive(Debug, Clone, Copy, PartialEq, Eq)]
pub enum Reading {
    /// Outside quotes.
    Bare,
    /// Between single quotes.
    Quoted,
    /// Outside quotes, behind a backslash.
    Escaped,
    /// Behind the first `&` of `&&`.
    Joining,
    /// Behind `>`.
    Redirecting,
}

/// The word that is being read, if one is.
pub open spec fn word_so_far(started: bool, word: Seq<char>) -> Seq<Token> {
    if started {
        seq![Token::Word(word)]
    } else {
        Seq::empty()
    }
}

/// `first` in front of what was read, if anything was.
pub open spec fn then_tokens(first: Seq<Token>, read: Option<Seq<Token>>) -> Option<Seq<Token>> {
    match read {
        Some(rest) => Some(first + rest),
        None => None,
    }
}

/// What the shell reads from the rest of a command line. `started` says whether
/// a word is being read, and `word` is what was read of it.
///
/// Outside quotes a space ends a word, `&&` ends a word and stands for itself,
/// `>` stands for itself between spaces, a quote opens a quoted stretch, a
/// backslash with a quote behind it is that quote, and a plain character is a
/// part of the word. Between quotes every character but the quote is a part of
/// the word. The result is `None` for every other line: one with any other
/// character outside quotes, with `>` directly behind a word or in front of
/// anything but a space, or with a quoted stretch that is not closed.
pub open spec fn read_line(
    state: Reading,
    started: bool,
    word: Seq<char>,
    rest: Seq<char>,
) -> Option<Seq<Token>>
    decreases rest.len(),
{
    if rest.len() == 0 {
        match state {
            Reading::Bare => Some(word_so_far(started, word)),
            Reading::Redirecting => Some(Seq::empty()),
            _ => None,
        }
    } else {
        let c = rest.first();
        let after = rest.drop_first();
        match state {
            Reading::Bare => if c == ' ' {
                then_tokens(
                    word_so_far(started, word),
                    read_line(Reading::Bare, false, Seq::empty(), after),
                )
            } else if c == '>' {
                if started {
                    None
                } else {
                    then_tokens(
                        seq![Token::Into],
                        read_line(Reading::Redirecting, false, Seq::empty(), after),
                    )
                }
            } else if c == '&' {
                read_line(Reading::Joining, started, word, after)
            } else if c == '\'' {
                read_line(Reading::Quoted, true, word, after)
            } else if c == '\\' {
                read_line(Reading::Escaped, true, word, after)
            } else if is_plain(c) {
                read_line(Reading::Bare, true, word.push(c), after)
            } else {
                None
            },
            Reading::Quoted => if c == '\'' {
                read_line(Reading::Bare, true, word, after)
            } else {
                read_line(Reading::Quoted, true, word.push(c), after)
            },
            Reading::Escaped => if c == '\'' {
                read_line(Reading::Bare, true, word.push('\''), after)
            } else {
                None
            },
            Reading::Joining => if c == '&' {
                then_tokens(
                    word_so_far(started, word).push(Token::AndThen),
                    read_line(Reading::Bare, false, Seq::empty(), after),
                )
            } else {
                None
            },
            Reading::Redirecting => if c == ' ' {
                read_line(Reading::Bare, false, Seq::empty(), after)
            } else {
                None
            },
        }
    }
}

/// What the shell reads from a command line.
pub open spec fn shell_tokens(line: Seq<char>) -> Option<Seq<Token>> {
    read_line(Reading::Bare, false, Seq::empty(), line)
}

/// The text that a line stands for as a single word, or `None` where the shell
/// reads anything else from it.
pub open spec fn unquoted(word: Seq<char>) -> Option<Seq<char>> {
    match shell_tokens(word) {
        Some(tokens) => if tokens.len() == 1 {
            match tokens[0] {
                Token::Word(text) => Some(text),
                _ => None,
            }
        } else {
            None
        },
        None => None,
    }
}

/// Plain characters are read into the word as they stand.
proof fn lemma_read_plain(plain: Seq<char>, started: bool, word: Seq<char>, rest: Seq<char>)
    requires
        forall|i: int| 0 <= i < plain.len() ==> is_plain(#[trigger] plain[i]),
    ensures
        read_line(Reading::Bare, started, word, plain + rest) == read_line(
            Reading::Bare,
            started || plain.len() > 0,
            word + plain,
            rest,
        ),
    decreases plain.len(),
{
    if plain.len() == 0 {
        assert(plain + rest =~= rest);
        assert(word + plain =~= word);
    } else {
        let c = plain.first();
        let line = plain + rest;
        assert(is_plain(plain[0]));
        assert(line.first() == c);
        assert(line.drop_first() =~= plain.drop_first() + rest);
        assert forall|i: int| 0 <= i < plain.drop_first().len() implies is_plain(
            #[trigger] plain.drop_first()[i],
        ) by {
            assert(plain.drop_first()[i] == plain[i + 1]);
        }
        lemma_read_plain(plain.drop_first(), true, word.push(c), rest);
        assert(word.push(c) + plain.drop_first() =~= word + plain);
    }
}

/// Between quotes, the escaped form of a character is read as the character.
proof fn lemma_read_escaped_char(c: char, word: Seq<char>, rest: Seq<char>)
    ensures
        read_line(Reading::Quoted, true, word, escaped_char(c) + rest) == read_line(
            Reading::Quoted,
            true,
            word.push(c),
            rest,
        ),
{
    let line = escaped_char(c) + rest;
    if c == '\'' {
        let l1 = line.drop_first();
        let l2 = l1.drop_first();
        let l3 = l2.drop_first();
        assert(l3.drop_first() =~= rest);
        assert(read_line(Reading::Quoted, true, word, line) == read_line(
            Reading::Bare,
            true,
            word,
            l1,
        ));
        assert(read_line(Reading::Bare, true, word, l1) == read_line(
            Reading::Escaped,
            true,
            word,
            l2,
        ));
        assert(read_line(Reading::Escaped, true, word, l2) == read_line(
            Reading::Bare,
            true,
            word.push('\''),
            l3,
        ));
    } else {
        assert(line.drop_first() =~= rest);
    }
}

/// Between quotes, the escaped form of a text is read as the text.
proof fn lemma_read_escaped(text: Seq<char>, word: Seq<char>, rest: Seq<char>)
    ensures
        read_line(Reading::Quoted, true, word, escaped(text) + rest) == read_line(
            Reading::Quoted,
            true,
            word + text,
            rest,
        ),
    decreases text.len(),
{
    if text.len() == 0 {
        assert(escaped(text) + rest =~= rest);
        assert(word + text =~= word);
    } else {
        let c = text.last();
        let front = text.drop_last();
        let tail = escaped_char(c) + rest;
        assert(escaped(text) + rest =~= escaped(front) + tail);
        lemma_read_escaped(front, word, tail);
        lemma_read_escaped_char(c, word + front, rest);
        assert((word + front).push(c) =~= word + text);
    }
}

/// A quoted text is read into the word as the text.
proof fn lemma_read_quoted(text: Seq<char>, started: bool, word: Seq<char>, rest: Seq<char>)
    ensures
        read_line(Reading::Bare, started, word, quoted(text) + rest) == read_line(
            Reading::Bare,
            true,
            word + text,
            rest,
        ),
{
    let line = quoted(text) + rest;
    let close = seq!['\''] + rest;
    assert(line.first() == '\'');
    assert(line.drop_first() =~= escaped(text) + close);
    lemma_read_escaped(text, word, close);
    assert(close.first() == '\'');
    assert(close.drop_first() =~= rest);
}

/// What is read where a word ends: at the end of the line, or at a space.
proof fn lemma_read_word_end(word: Seq<char>, rest: Seq<char>)
    ensures
        read_line(Reading::Bare, true, word, Seq::empty()) == Some(seq![Token::Word(word)]),
        read_line(Reading::Bare, true, word, seq![' '] + rest) == then_tokens(
            seq![Token::Word(word)],
            shell_tokens(rest),
        ),
{
    let line = seq![' '] + rest;
    assert(line.first() == ' ');
    assert(line.drop_first() =~= rest);
}

/// `&&` at the head of a line is read as the operator.
proof fn lemma_read_and_then(rest: Seq<char>)
    ensures
        shell_tokens(seq!['&', '&'] + rest) == then_tokens(
            seq![Token::AndThen],
            shell_tokens(rest),
        ),
{
    let none = Seq::<char>::empty();
    let line = seq!['&', '&'] + rest;
    assert(line.first() == '&');
    assert(line.drop_first().first() == '&');
    assert(line.drop_first().drop_first() =~= rest);
    assert(shell_tokens(line) == read_line(Reading::Joining, false, none, line.drop_first()));
    assert(word_so_far(false, none).push(Token::AndThen) =~= seq![Token::AndThen]);
}

/// `>` at the head of a line is read as the operator where the line ends
/// behind it or goes on behind a space.
proof fn lemma_read_into(rest: Seq<char>)
    ensures
        shell_tokens(seq!['>']) == Some(seq![Token::Into]),
        shell_tokens(seq!['>'] + (seq![' '] + rest)) == then_tokens(
            seq![Token::Into],
            shell_tokens(rest),
        ),
{
    let none = Seq::<char>::empty();
    let alone = seq!['>'];
    assert(alone.first() == '>');
    assert(alone.drop_first() =~= none);
    assert(read_line(Reading::Redirecting, false, none, none) == Some(Seq::<Token>::empty()));
    assert(seq![Token::Into] + Seq::<Token>::empty() =~= seq![Token::Into]);
    let more = seq![' '] + rest;
    let line = seq!['>'] + more;
    assert(line.first() == '>');
    assert(line.drop_first() =~= more);
    assert(more.first() == ' ');
    assert(more.drop_first() =~= rest);
    assert(read_line(Reading::Redirecting, false, none, more) == shell_tokens(rest));
}

/// An item at the head of a line is read as its token, whether the line ends
/// behind it or goes on behind a space.
proof fn lemma_read_item(item: Item, rest: Seq<char>)
    ensures
        shell_tokens(written(item)) == Some(seq![token_of(item)]),
        shell_tokens(written(item) + seq![' '] + rest) == then_tokens(
            seq![token_of(item)],
            shell_tokens(rest),
        ),
{
    let none = Seq::<char>::empty();
    let more = seq![' '] + rest;
    assert(written(item) + none =~= written(item));
    assert(written(item) + seq![' '] + rest =~= written(item) + more);
    match item {
        Item::Plain(word) => {
            if is_plain_word(word) {
                lemma_read_plain(word, false, none, none);
                lemma_read_plain(word, false, none, more);
            } else {
                lemma_read_quoted(word, false, none, none);
                lemma_read_quoted(word, false, none, more);
            }
            assert(none + word =~= word);
            lemma_read_word_end(word, rest);
        },
        Item::Quoted(text) => {
            lemma_read_quoted(text, false, none, none);
            lemma_read_quoted(text, false, none, more);
            assert(none + text =~= text);
            lemma_read_word_end(text, rest);
        },
        Item::AndThen => {
            lemma_read_and_then(none);
            lemma_read_and_then(more);
            lemma_read_gap(rest);
            assert(seq![Token::AndThen] + Seq::<Token>::empty() =~= seq![Token::AndThen]);
        },
        Item::Into => {
            lemma_read_into(rest);
        },
    }
}

/// A space in front of items is read as nothing.
proof fn lemma_read_gap(rest: Seq<char>)
    ensures
        shell_tokens(seq![' '] + rest) == shell_tokens(rest),
{
    let line = seq![' '] + rest;
    assert(line.first() == ' ');
    assert(line.drop_first() =~= rest);
    match shell_tokens(rest) {
        Some(tokens) => assert(Seq::<Token>::empty() + tokens =~= tokens),
        None => {},
    }
}

/// The shell reads from the command line of some items exactly their tokens:
/// as many, in their order, and each quoted text as the text itself, whatever
/// it holds.
pub proof fn lemma_rendered_reads_back(items: Seq<Item>)
    ensures
        shell_tokens(rendered(items)) == Some(tokens_of(items)),
    decreases items.len(),
{
    if items.len() == 0 {
        assert(tokens_of(items) =~= Seq::<Token>::empty());
    } else {
        let item = items.first();
        let others = items.drop_first();
        if items.len() == 1 {
            lemma_read_item(item, Seq::empty());
            assert(tokens_of(items) =~= seq![token_of(item)]);
        } else {
            lemma_read_item(item, rendered(others));
            lemma_rendered_reads_back(others);
            assert(seq![token_of(item)] + tokens_of(others) =~= tokens_of(items));
        }
    }
}

/// A quoted text is a word that the shell reads back as exactly that text.
pub proof fn lemma_quote_round_trip(text: Seq<char>)
    ensures
        shell_tokens(quoted(text)) == Some(seq![Token::Word(text)]),
        unquoted(quoted(text)) == Some(text),
{
    lemma_read_item(Item::Quoted(text), Seq::empty());
}

/// What the shell makes of a part of a command line.
#[derive(Debug, PartialEq, Eq)]
pub enum ShellToken {
    /// A word, as the text that it stands for.
    Word(String),
    /// The operator `&&`.
    AndThen,
    /// The operator `>`.
    Into,
}

impl View for ShellToken {
    type V = Token;

    open spec fn view(&self) -> Token {
        match self {
            ShellToken::Word(text) => Token::Word(text@),
            ShellToken::AndThen => Token::AndThen,
            ShellToken::Into => Token::Into,
        }
    }
}

/// The tokens of a list, as what they hold.
pub open spec fn token_views(tokens: Seq<ShellToken>) -> Seq<Token> {
    tokens.map_values(|token: ShellToken| token@)
}

/// What was read goes in front of what is read next.
proof fn lemma_then_tokens(first: Seq<Token>, next: Seq<Token>, read: Option<Seq<Token>>)
    ensures
        then_tokens(first, then_tokens(next, read)) == then_tokens(first + next, read),
{
    match read {
        Some(rest) => assert(first + (next + rest) =~= (first + next) + rest),
        None => {},
    }
}

/// Reads a command line as the shell does: the words, each as the text that it
/// stands for, and the operators between them. `None` where the line holds
/// anything else outside quotes than plain characters, spaces, `&&`, `>`
/// between spaces and backslash-quote pairs, or where a quoted stretch is not
/// closed.
pub fn shell_words(line: &str) -> (read: Option<Vec<ShellToken>>)
    ensures
        match read {
            Some(tokens) => shell_tokens(line@) == Some(token_views(tokens@)),
            None => shell_tokens(line@) is None,
        },
{
    let mut tokens: Vec<ShellToken> = Vec::new();
    let mut word = String::new();
    let mut started = false;
    let mut state = Reading::Bare;
    proof {
        assert(line@.skip(0) =~= line@);
        assert(token_views(tokens@) =~= Seq::<Token>::empty());
        lemma_then_tokens(Seq::empty(), Seq::empty(), shell_tokens(line@));
        match shell_tokens(line@) {
            Some(rest) => assert(Seq::<Token>::empty() + rest =~= rest),
            None => {},
        }
    }
    for c in it: line.chars()
        invariant
            it.seq() == line@,
            started || word@ == Seq::<char>::empty(),
            state == Reading::Redirecting ==> !started,
            shell_tokens(line@) == then_tokens(
                token_views(tokens@),
                read_line(state, started, word@, line@.skip(it.index())),
            ),
    {
        let ghost done = token_views(tokens@);
        let ghost pending = word_so_far(started, word@);
        let ghost after = line@.skip(it.index() + 1);
        let ghost fresh = read_line(Reading::Bare, false, Seq::empty(), after);
        proof {
            let rest = line@.skip(it.index());
            assert(rest.first() == c);
            assert(rest.drop_first() =~= after);
            lemma_then_tokens(done, pending, fresh);
            lemma_then_tokens(done, pending.push(Token::AndThen), fresh);
            lemma_then_tokens(
                done,
                seq![Token::Into],
                read_line(Reading::Redirecting, false, Seq::empty(), after),
            );
        }
        match state {
            Reading::Bare => {
                if c == ' ' {
                    if started {
                        tokens.push(ShellToken::Word(word));
                        word = String::new();
                        started = false;
                    }
                    assert(token_views(tokens@) =~= done + pending);
                } else if c == '>' {
                    if started {
                        return None;
                    }
                    tokens.push(ShellToken::Into);
                    state = Reading::Redirecting;
                    assert(token_views(tokens@) =~= done + seq![Token::Into]);
                } else if c == '&' {
                    state = Reading::Joining;
                } else if c == '\'' {
                    state = Reading::Quoted;
                    started = true;
                } else if c == '\\' {
                    state = Reading::Escaped;
                    started = true;
                } else if is_plain_char(c) {
                    word.push(c);
                    started = true;
                } else {
                    return None;
                }
            },
            Reading::Quoted => {
                if c == '\'' {
                    state = Reading::Bare;
                } else {
                    word.push(c);
                }
                started = true;
            },
            Reading::Escaped => {
                if c == '\'' {
                    word.push('\'');
                    state = Reading::Bare;
                    started = true;
                } else {
                    return None;
                }
            },
            Reading::Joining => {
                if c == '&' {
                    if started {
                        tokens.push(ShellToken::Word(word));
                        word = String::new();
                        started = false;
                    }
                    tokens.push(ShellToken::AndThen);
                    state = Reading::Bare;
                    assert(token_views(tokens@) =~= done + pending.push(Token::AndThen));
                } else {
                    return None;
                }
            },
            Reading::Redirecting => {
                if c == ' ' {
                    state = Reading::Bare;
                } else {
                    return None;
                }
            },
        }
    }
    assert(line@.skip(line@.len() as int) =~= Seq::<char>::empty());
    match state {
        Reading::Bare => {
            let ghost done = token_views(tokens@);
            if started {
                tokens.push(ShellToken::Word(word));
            }
            assert(token_views(tokens@) =~= done + word_so_far(started, word@));
            Some(tokens)
        },
        Reading::Redirecting => {
            assert(token_views(tokens@) + Seq::<Token>::empty() =~= token_views(tokens@));
            Some(tokens)
        },
        _ => None,
    }
}

/// Reads a line as the shell does and gives the text that it stands for where
/// it is a single word, or `None` where it is anything else.
pub fn unquote(word: &str) -> (text: Option<String>)
    ensures
        opt_view(text) == unquoted(word@),
{
    match shell_words(word) {
        Some(tokens) => {
            let mut tokens = tokens;
            if tokens.len() == 1 {
                match tokens.pop() {
                    Some(ShellToken::Word(text)) => Some(text),
                    _ => None,
                }
            } else {
                None
            }
        },
        None => None,
    }
}

} // verus!
