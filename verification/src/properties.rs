use vstd::prelude::*;
use vstd::string::*;
use crate::text::{
    decimal_string, decimal_text, find_from, index_from, string_of, chars_of, trim_range, trimmed,
};

verus! {

/// The format of properties files: one `key=value` pair per line, with
/// empty lines and lines that start with `#` or `!` left out.
#[derive(Debug, Clone)]
pub struct PropertiesFile;

/// A line of a properties file that is neither left out nor a pair.
#[derive(Debug, Clone, PartialEq, Eq)]
pub struct InvalidLine {
    /// The number of the line, counted from one.
    pub line_number: usize,
    /// The line without the white space at its ends.
    pub line: String,
}

/// What a line of a properties file means, once the white space at its
/// ends is removed.
pub ghost enum LineMeaning {
    /// The line is empty or a comment.
    Skipped,
    /// The line is a pair of a key and a value.
    Pair(Seq<char>, Seq<char>),
    /// The line holds no equals sign.
    Invalid,
}

/// The lines of `text` from position `from` on: the text is cut at every
/// line feed, and a line feed at the very end opens no further line.
pub open spec fn lines_from(text: Seq<char>, from: int) -> Seq<Seq<char>>
    decreases text.len() - from,
{
    if from < 0 || from >= text.len() {
        Seq::empty()
    } else if index_from(text, '\n', from) < from {
        Seq::empty()
    } else if index_from(text, '\n', from) >= text.len() {
        seq![text.subrange(from, text.len() as int)]
    } else {
        seq![text.subrange(from, index_from(text, '\n', from))] + lines_from(
            text,
            index_from(text, '\n', from) + 1,
        )
    }
}

/// What a line means, given without the white space at its ends: a pair is
/// split at its first equals sign, and key and value lose the white space at
/// their ends.
pub open spec fn meaning_of(line: Seq<char>) -> LineMeaning {
    if line.len() == 0 || line[0] == '#' || line[0] == '!' {
        LineMeaning::Skipped
    } else {
        let split = index_from(line, '=', 0);
        if 0 <= split < line.len() {
            LineMeaning::Pair(
                trimmed(line.subrange(0, split)),
                trimmed(line.subrange(split + 1, line.len() as int)),
            )
        } else {
            LineMeaning::Invalid
        }
    }
}

/// The pairs that `lines` hold, in order.
pub open spec fn pairs_of(lines: Seq<Seq<char>>) -> Seq<(Seq<char>, Seq<char>)>
    decreases lines.len(),
{
    if lines.len() == 0 {
        Seq::empty()
    } else {
        match meaning_of(trimmed(lines.last())) {
            LineMeaning::Pair(key, value) => pairs_of(lines.drop_last()).push((key, value)),
            _ => pairs_of(lines.drop_last()),
        }
    }
}

/// Whether the first `count` of `lines` are all pairs or left out.
pub open spec fn all_valid(lines: Seq<Seq<char>>, count: int) -> bool {
    forall|i: int| 0 <= i < count ==> !(meaning_of(trimmed(#[trigger] lines[i])) is Invalid)
}

/// The pairs of keys and values as mathematical values.
pub open spec fn pairs_view(pairs: Seq<(String, String)>) -> Seq<(Seq<char>, Seq<char>)> {
    pairs.map_values(|pair: (String, String)| (pair.0@, pair.1@))
}

/// The position that holds the first `c` at or after `from` is the one
/// before which there is none.
pub proof fn lemma_index_from_is_first(text: Seq<char>, c: char, from: int, first: int)
    requires
        0 <= from <= first <= text.len(),
        first < text.len() ==> text[first] == c,
        forall|i: int| from <= i < first ==> text[i] != c,
    ensures
        index_from(text, c, from) == first,
    decreases first - from,
{
    if from < first {
        lemma_index_from_is_first(text, c, from + 1, first);
    }
}

impl InvalidLine {
    /// The text of the error.
    pub open spec fn message_text(self) -> Seq<char> {
        "Invalid line "@ + decimal_text(self.line_number as nat) + ": '"@ + self.line@ + "'"@
    }

    /// The text of the error.
    pub fn to_string(&self) -> (text: String)
        ensures
            text@ == self.message_text(),
    {
        let mut text = String::from_str("Invalid line ");
        text.append(decimal_string(self.line_number as u128).as_str());
        text.append(": '");
        text.append(self.line.as_str());
        text.append("'");
        proof {
            assert(text@ =~= self.message_text());
        }
        text
    }
}

impl PropertiesFile {
    /// The extensions of the files that hold this format.
    pub fn file_extensions(&self) -> (extensions: Vec<&'static str>)
        ensures
            extensions@.len() == 1,
            extensions@[0]@ == "properties"@,
    {
        let mut extensions: Vec<&'static str> = Vec::new();
        extensions.push("properties");
        extensions
    }

    /// Reads the pairs of keys and values off a text, in the order of
    /// their lines. Fails at the first line that is neither left out nor a
    /// pair, with its number and what it holds.
    pub fn parse(&self, text: &str) -> (result: Result<Vec<(String, String)>, InvalidLine>)
        ensures
            ({
                let lines = lines_from(text@, 0);
                match result {
                    Ok(pairs) => all_valid(lines, lines.len() as int) && pairs_view(pairs@)
                        == pairs_of(lines),
                    Err(error) => {
                        &&& 1 <= error.line_number <= lines.len()
                        &&& all_valid(lines, error.line_number - 1)
                        &&& meaning_of(trimmed(lines[error.line_number - 1])) is Invalid
                        &&& error.line@ == trimmed(lines[error.line_number - 1])
                    },
                }
            }),
    {
        let chars = chars_of(text);
        let all = chars.as_slice();
        let len = all.len();
        let mut pairs: Vec<(String, String)> = Vec::new();
        let mut start: usize = 0;
        let mut lineno: usize = 0;
        let ghost mut done: Seq<Seq<char>> = Seq::empty();
        proof {
            assert(pairs_view(pairs@) =~= pairs_of(done));
        }
        while start < len
            invariant
                all@ == text@,
                len == all@.len(),
                start <= len,
                lineno == done.len(),
                lineno <= start,
                lines_from(text@, 0) == done + lines_from(text@, start as int),
                all_valid(done, done.len() as int),
                pairs_view(pairs@) == pairs_of(done),
            decreases len - start,
        {
            let end = find_from(all, '\n', start, len);
            let (from, to) = trim_range(all, start, end);
            let ghost raw = text@.subrange(start as int, end as int);
            let ghost line = trimmed(raw);
            let ghost next = done.push(raw);
            proof {
                assert(all@.subrange(0, len as int) =~= all@);
                assert(lines_from(text@, end + 1) =~= Seq::<Seq<char>>::empty() || end < len);
                assert(lines_from(text@, start as int) =~= seq![raw] + lines_from(text@, end + 1));
                assert(done + (seq![raw] + lines_from(text@, end + 1)) =~= next + lines_from(
                    text@,
                    end + 1,
                ));
                assert(next.drop_last() =~= done);
                assert(next.last() == raw);
                assert(line == all@.subrange(from as int, to as int));
            }
            let skipped = from == to || all[from] == '#' || all[from] == '!';
            proof {
                if from < to {
                    assert(line[0] == all@[from as int]);
                }
            }
            if !skipped {
                let split = find_from(all, '=', from, to);
                proof {
                    assert forall|i: int| 0 <= i < split - from implies line[i] != '=' by {
                        assert(line[i] == all@[from + i]);
                    }
                    if split < to {
                        assert(line[split - from] == all@[split as int]);
                    }
                    lemma_index_from_is_first(line, '=', 0, split - from);
                }
                if split == to {
                    proof {
                        assert(meaning_of(line) is Invalid);
                        assert(lines_from(text@, 0)[lineno as int] == raw);
                        assert forall|i: int| 0 <= i < lineno implies !(meaning_of(
                            trimmed(#[trigger] lines_from(text@, 0)[i]),
                        ) is Invalid) by {
                            assert(lines_from(text@, 0)[i] == done[i]);
                        }
                    }
                    return Err(
                        InvalidLine {
                            line_number: lineno + 1,
                            line: string_of(all, from, to),
                        },
                    );
                }
                let (key_from, key_to) = trim_range(all, from, split);
                let (value_from, value_to) = trim_range(all, split + 1, to);
                let key = string_of(all, key_from, key_to);
                let value = string_of(all, value_from, value_to);
                proof {
                    assert(all@.subrange(from as int, split as int) =~= line.subrange(
                        0,
                        split - from,
                    ));
                    assert(all@.subrange(split + 1, to as int) =~= line.subrange(
                        split - from + 1,
                        line.len() as int,
                    ));
                    assert(meaning_of(line) == LineMeaning::Pair(key@, value@));
                    assert(pairs_view(pairs@.push((key, value))) =~= pairs_view(pairs@).push(
                        (key@, value@),
                    ));
                }
                pairs.push((key, value));
            } else {
                proof {
                    assert(meaning_of(line) is Skipped);
                }
            }
            proof {
                assert(pairs_view(pairs@) == pairs_of(next));
                assert forall|i: int| 0 <= i < next.len() implies !(meaning_of(
                    trimmed(#[trigger] next[i]),
                ) is Invalid) by {
                    if i < done.len() {
                        assert(next[i] == done[i]);
                    }
                }
                done = next;
            }
            lineno = lineno + 1;
            proof {
                if end == len {
                    assert(lines_from(text@, end + 1) =~= lines_from(text@, len as int));
                }
            }
            start = if end < len {
                end + 1
            } else {
                len
            };
        }
        proof {
            assert(lines_from(text@, start as int) =~= Seq::<Seq<char>>::empty());
            assert(lines_from(text@, 0) =~= done);
        }
        Ok(pairs)
    }
}

} // verus!
