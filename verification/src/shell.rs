//! Command lines for a POSIX shell: quoting, and what the shell makes of the result.

use vstd::prelude::*;

use crate::text;
use crate::text::chars_of;

verus! {

/// `s` for the inside of single quotes: a single quote ends the quotes, stands behind a
/// backslash, and opens them again.
pub open spec fn escaped(s: Seq<char>) -> Seq<char>
    decreases s.len(),
{
    if s.len() == 0 {
        Seq::empty()
    } else if s.last() == '\'' {
        escaped(s.drop_last()) + seq!['\'', '\\', '\'', '\'']
    } else {
        escaped(s.drop_last()).push(s.last())
    }
}

/// `s` as one word for the shell, whatever it holds.
pub open spec fn quoted(s: Seq<char>) -> Seq<char> {
    seq!['\''] + escaped(s) + seq!['\'']
}

/// Quotes a string so that the shell takes it as one word.
pub fn shell_quote(s: &str) -> (q: String)
    ensures
        q@ == quoted(s@),
{
    let chars = chars_of(s);
    let mut out = String::new();
    out.push('\'');
    for i in 0..chars.len()
        invariant
            chars@ == s@,
            out@ == seq!['\''] + escaped(s@.take(i as int)),
    {
        assert(s@.take(i + 1).drop_last() =~= s@.take(i as int));
        if chars[i] == '\'' {
            out.push('\'');
            out.push('\\');
            out.push('\'');
            out.push('\'');
        } else {
            out.push(chars[i]);
        }
        assert(out@ =~= seq!['\''] + escaped(s@.take(i + 1)));
    }
    assert(s@.take(s@.len() as int) =~= s@);
    out.push('\'');
    assert(out@ =~= quoted(s@));
    out
}

/// The parts with a separator between each two.
pub open spec fn joined(parts: Seq<Seq<char>>, sep: Seq<char>) -> Seq<char>
    decreases parts.len(),
{
    if parts.len() == 0 {
        Seq::empty()
    } else if parts.len() == 1 {
        parts[0]
    } else {
        joined(parts.drop_last(), sep) + sep + parts.last()
    }
}

/// Joins strings with a separator between each two.
pub fn join(parts: &[String], sep: &str) -> (s: String)
    ensures
        s@ == joined(text::texts(parts@), sep@),
{
    let mut out = String::new();
    let ghost all = text::texts(parts@);
    for i in 0..parts.len()
        invariant
            all == text::texts(parts@),
            out@ == joined(all.take(i as int), sep@),
    {
        assert(all.take(i + 1).drop_last() =~= all.take(i as int));
        if i > 0 {
            out.append(sep);
        }
        out.append(parts[i].as_str());
        assert(out@ =~= joined(all.take(i + 1), sep@));
    }
    assert(all.take(all.len() as int) =~= all);
    out
}

/// How far the shell has read a command line.
pub enum Quoting {
    /// Outside any quotes.
    Open,
    /// Between single quotes.
    Single,
    /// Behind a backslash, outside any quotes.
    Escape,
}

/// What the shell has read of a command line: the words before, and the word it is in.
pub struct Reader {
    pub quoting: Quoting,
    pub word: Option<Seq<char>>,
    pub words: Seq<Seq<char>>,
}

/// Whether a character stands for itself outside quotes.
pub open spec fn is_plain(c: char) -> bool {
    ||| 'a' <= c <= 'z'
    ||| 'A' <= c <= 'Z'
    ||| '0' <= c <= '9'
    ||| c == '-'
    ||| c == '_'
    ||| c == '.'
    ||| c == '/'
    ||| c == ':'
    ||| c == '='
    ||| c == ','
}

/// The word that a reader is in, or an empty one that begins.
pub open spec fn current(r: Reader) -> Seq<char> {
    match r.word {
        Some(w) => w,
        None => Seq::empty(),
    }
}

/// The reader with `s` added to the word it is in.
pub open spec fn extended(r: Reader, s: Seq<char>) -> Reader {
    Reader { quoting: Quoting::Open, word: Some(current(r) + s), words: r.words }
}

/// One character of a command line, after the rules of the POSIX shell. Where a character
/// outside quotes does anything but stand for itself, part two words or quote, there is no
/// result: an operator, an expansion, a pattern.
pub open spec fn step(reader: Option<Reader>, c: char) -> Option<Reader> {
    match reader {
        None => None,
        Some(r) => match r.quoting {
            Quoting::Single => if c == '\'' {
                Some(Reader { quoting: Quoting::Open, ..r })
            } else {
                Some(Reader { word: Some(current(r).push(c)), ..r })
            },
            Quoting::Escape => if c == '\n' {
                Some(Reader { quoting: Quoting::Open, ..r })
            } else {
                Some(
                    Reader {
                        quoting: Quoting::Open,
                        word: Some(current(r).push(c)),
                        words: r.words,
                    },
                )
            },
            Quoting::Open => if c == '\'' {
                Some(
                    Reader { quoting: Quoting::Single, word: Some(current(r)), words: r.words },
                )
            } else if c == '\\' {
                Some(Reader { quoting: Quoting::Escape, ..r })
            } else if c == ' ' || c == '\t' {
                match r.word {
                    Some(w) => Some(
                        Reader { quoting: Quoting::Open, word: None, words: r.words.push(w) },
                    ),
                    None => Some(r),
                }
            } else if is_plain(c) {
                Some(
                    Reader {
                        quoting: Quoting::Open,
                        word: Some(current(r).push(c)),
                        words: r.words,
                    },
                )
            } else {
                None
            },
        },
    }
}

/// The characters of `s`, one after the other.
pub open spec fn read(reader: Option<Reader>, s: Seq<char>) -> Option<Reader>
    decreases s.len(),
{
    if s.len() == 0 {
        reader
    } else {
        step(read(reader, s.drop_last()), s.last())
    }
}

/// A command line of which nothing is read yet.
pub open spec fn fresh() -> Reader {
    Reader { quoting: Quoting::Open, word: None, words: Seq::empty() }
}

/// The words of the simple command that a command line spells. There is no result where the
/// line holds anything but words, or ends within quotes.
pub open spec fn shell_words(line: Seq<char>) -> Option<Seq<Seq<char>>> {
    match read(Some(fresh()), line) {
        Some(r) => match (r.quoting, r.word) {
            (Quoting::Open, Some(w)) => Some(r.words.push(w)),
            (Quoting::Open, None) => Some(r.words),
            _ => None,
        },
        None => None,
    }
}

/// Reading goes on where it stopped.
pub proof fn read_goes_on(reader: Option<Reader>, a: Seq<char>, b: Seq<char>)
    ensures
        read(reader, a + b) == read(read(reader, a), b),
    decreases b.len(),
{
    if b.len() == 0 {
        assert(a + b =~= a);
    } else {
        read_goes_on(reader, a, b.drop_last());
        assert((a + b).drop_last() =~= a + b.drop_last());
    }
}

proof fn escaped_is_read_back(r: Reader, s: Seq<char>)
    requires
        r.quoting is Single,
        r.word is Some,
    ensures
        read(Some(r), escaped(s)) == Some(
            Reader { quoting: Quoting::Single, word: Some(current(r) + s), words: r.words },
        ),
    decreases s.len(),
{
    if s.len() == 0 {
        assert(current(r) + s =~= current(r));
    } else {
        let rest = s.drop_last();
        escaped_is_read_back(r, rest);
        let inner = Reader {
            quoting: Quoting::Single,
            word: Some(current(r) + rest),
            words: r.words,
        };
        let c = s.last();
        assert((current(r) + rest).push(c) =~= current(r) + s);
        if c == '\'' {
            let tail = seq!['\'', '\\', '\'', '\''];
            read_goes_on(Some(r), escaped(rest), tail);
            assert(tail.drop_last() =~= seq!['\'', '\\', '\'']);
            assert(seq!['\'', '\\', '\''].drop_last() =~= seq!['\'', '\\']);
            assert(seq!['\'', '\\'].drop_last() =~= seq!['\'']);
            assert(seq!['\''].drop_last() =~= Seq::<char>::empty());
            reveal_with_fuel(read, 5);
        } else {
            assert(escaped(rest).push(c).drop_last() =~= escaped(rest));
        }
    }
}

/// Quoting survives whatever the text holds: the shell adds exactly that text to the word it
/// is in, splits nothing, expands nothing, and is outside quotes again.
pub proof fn quoted_is_read_back(r: Reader, s: Seq<char>)
    requires
        r.quoting is Open,
    ensures
        read(Some(r), quoted(s)) == Some(extended(r, s)),
{
    let open = seq!['\''];
    let begun = Reader { quoting: Quoting::Single, word: Some(current(r)), words: r.words };
    assert(open.drop_last() =~= Seq::<char>::empty());
    assert(read(Some(r), open) == Some(begun)) by {
        reveal_with_fuel(read, 2);
    }
    read_goes_on(Some(r), open, escaped(s));
    escaped_is_read_back(begun, s);
    read_goes_on(Some(r), open + escaped(s), open);
    reveal_with_fuel(read, 2);
}

/// A quoted text alone is a command line of one word, that text.
pub proof fn quoted_is_one_word(s: Seq<char>)
    ensures
        shell_words(quoted(s)) == Some(seq![s]),
{
    quoted_is_read_back(fresh(), s);
    assert(current(fresh()) + s =~= s);
    assert(Seq::<Seq<char>>::empty().push(s) =~= seq![s]);
}

/// Whether a text consists of characters that stand for themselves.
pub open spec fn all_plain(s: Seq<char>) -> bool {
    forall|i: int| 0 <= i < s.len() ==> is_plain(#[trigger] s[i])
}

/// Characters that stand for themselves are added to the word as they are.
pub proof fn plain_is_read_back(r: Reader, s: Seq<char>)
    requires
        r.quoting is Open,
        s.len() > 0,
        all_plain(s),
    ensures
        read(Some(r), s) == Some(extended(r, s)),
    decreases s.len(),
{
    let rest = s.drop_last();
    assert(is_plain(s[s.len() - 1]));
    if rest.len() == 0 {
        assert(read(Some(r), rest) == Some(r));
        assert(current(r).push(s.last()) =~= current(r) + s);
    } else {
        assert forall|i: int| 0 <= i < rest.len() implies is_plain(#[trigger] rest[i]) by {
            assert(is_plain(s[i]));
        }
        plain_is_read_back(r, rest);
        assert((current(r) + rest).push(s.last()) =~= current(r) + s);
    }
}

/// Whether the shell reads `spelling`, where a word may begin, as the word `word`.
pub open spec fn spells(spelling: Seq<char>, word: Seq<char>) -> bool {
    forall|r: Reader|
        #![trigger read(Some(r), spelling)]
        r.quoting is Open && r.word is None ==> read(Some(r), spelling) == Some(
            Reader { quoting: Quoting::Open, word: Some(word), words: r.words },
        )
}

/// A word of characters that stand for themselves spells itself.
pub proof fn plain_spells(s: Seq<char>)
    requires
        s.len() > 0,
        all_plain(s),
    ensures
        spells(s, s),
{
    assert forall|r: Reader|
        #![trigger read(Some(r), s)]
        r.quoting is Open && r.word is None implies read(Some(r), s) == Some(
        Reader { quoting: Quoting::Open, word: Some(s), words: r.words },
    ) by {
        plain_is_read_back(r, s);
        assert(current(r) + s =~= s);
    }
}

/// Characters that stand for themselves before a quoted text spell the two as one word.
pub proof fn plain_then_quoted_spells(p: Seq<char>, s: Seq<char>)
    requires
        all_plain(p),
    ensures
        spells(p + quoted(s), p + s),
{
    assert forall|r: Reader|
        #![trigger read(Some(r), p + quoted(s))]
        r.quoting is Open && r.word is None implies read(Some(r), p + quoted(s)) == Some(
        Reader { quoting: Quoting::Open, word: Some(p + s), words: r.words },
    ) by {
        read_goes_on(Some(r), p, quoted(s));
        if p.len() > 0 {
            plain_is_read_back(r, p);
            let begun = extended(r, p);
            quoted_is_read_back(begun, s);
            assert(current(begun) + s =~= p + s);
        } else {
            quoted_is_read_back(r, s);
            assert(current(r) + s =~= p + s);
        }
    }
}

/// Where something stands for itself behind a word, it is added to it.
pub proof fn spells_then_plain(t: Seq<char>, w: Seq<char>, p: Seq<char>)
    requires
        spells(t, w),
        p.len() > 0,
        all_plain(p),
    ensures
        spells(t + p, w + p),
{
    assert forall|r: Reader|
        #![trigger read(Some(r), t + p)]
        r.quoting is Open && r.word is None implies read(Some(r), t + p) == Some(
        Reader { quoting: Quoting::Open, word: Some(w + p), words: r.words },
    ) by {
        read_goes_on(Some(r), t, p);
        let begun = Reader { quoting: Quoting::Open, word: Some(w), words: r.words };
        assert(read(Some(r), t) == Some(begun));
        plain_is_read_back(begun, p);
    }
}

proof fn line_is_read_back(spellings: Seq<Seq<char>>, words: Seq<Seq<char>>)
    requires
        spellings.len() > 0,
        spellings.len() == words.len(),
        forall|i: int| 0 <= i < words.len() ==> spells(#[trigger] spellings[i], words[i]),
    ensures
        read(Some(fresh()), joined(spellings, " "@)) == Some(
            Reader {
                quoting: Quoting::Open,
                word: Some(words.last()),
                words: words.drop_last(),
            },
        ),
    decreases spellings.len(),
{
    let n = spellings.len();
    assert(spells(spellings[n - 1], words[n - 1]));
    if n == 1 {
        assert(read(Some(fresh()), spellings[0]) is Some);
        assert(words.drop_last() =~= Seq::<Seq<char>>::empty());
    } else {
        let before = spellings.drop_last();
        assert forall|i: int| 0 <= i < before.len() implies spells(
            #[trigger] before[i],
            words.drop_last()[i],
        ) by {
            assert(spells(spellings[i], words[i]));
        }
        line_is_read_back(before, words.drop_last());
        reveal_strlit(" ");
        assert(" "@ =~= seq![' ']);
        let head = joined(before, " "@);
        read_goes_on(Some(fresh()), head, " "@);
        assert(" "@.drop_last() =~= Seq::<char>::empty());
        let parted = Reader { quoting: Quoting::Open, word: None, words: words.drop_last() };
        assert(read(Some(fresh()), head + " "@) == Some(parted)) by {
            reveal_with_fuel(read, 2);
            assert(words.drop_last().drop_last().push(words.drop_last().last())
                =~= words.drop_last());
        }
        read_goes_on(Some(fresh()), head + " "@, spellings.last());
        assert(read(Some(parted), spellings.last()) is Some);
    }
}

/// Spellings with spaces between them make a command line of the words they spell.
pub proof fn spaced_words(spellings: Seq<Seq<char>>, words: Seq<Seq<char>>)
    requires
        spellings.len() == words.len(),
        forall|i: int| 0 <= i < words.len() ==> spells(#[trigger] spellings[i], words[i]),
    ensures
        shell_words(joined(spellings, " "@)) == Some(words),
{
    if spellings.len() == 0 {
        assert(words =~= Seq::<Seq<char>>::empty());
    } else {
        line_is_read_back(spellings, words);
        assert(words.drop_last().push(words.last()) =~= words);
    }
}

/// Parts that follow one another are joined with one separator between them, a part alone is
/// itself, and no parts make nothing.
pub proof fn parts_are_separated(
    parts: Seq<Seq<char>>,
    more: Seq<Seq<char>>,
    part: Seq<char>,
    sep: Seq<char>,
)
    requires
        parts.len() > 0,
        more.len() > 0,
    ensures
        joined(parts + more, sep) == joined(parts, sep) + sep + joined(more, sep),
        joined(seq![part], sep) == part,
        joined(Seq::empty(), sep).len() == 0,
    decreases more.len(),
{
    let all = parts + more;
    let fewer = more.drop_last();
    assert(all.drop_last() =~= parts + fewer);
    assert(all.last() == more.last());
    if more.len() == 1 {
        assert(parts + fewer =~= parts);
        assert(more.last() == more[0]);
    } else {
        parts_are_separated(parts, fewer, part, sep);
        let a = joined(parts, sep);
        let b = joined(fewer, sep);
        assert((a + sep + b) + sep + more.last() =~= a + sep + (b + sep + more.last()));
    }
}

/// A text without a single quote is quoted by one on each side.
pub proof fn plain_text_is_wrapped(s: Seq<char>)
    requires
        !s.contains('\''),
    ensures
        quoted(s) == seq!['\''] + s + seq!['\''],
{
    unquoted_stays(s);
}

proof fn unquoted_stays(s: Seq<char>)
    requires
        !s.contains('\''),
    ensures
        escaped(s) == s,
    decreases s.len(),
{
    if s.len() > 0 {
        let fewer = s.drop_last();
        assert forall|i: int| 0 <= i < fewer.len() implies fewer[i] != '\'' by {
            assert(s.contains(s[i]));
        }
        assert(s.contains(s.last()));
        unquoted_stays(fewer);
        assert(fewer.push(s.last()) =~= s);
        assert(escaped(s) =~= s);
    }
}

}
