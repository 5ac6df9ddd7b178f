use vstd::prelude::*;
use crate::text::{chars_of, is_whitespace, is_ws, matches_at, occurs_at};

verus! {

/// How many ancestors, nearest first, are scanned for lineage lines.
pub const LINEAGE_SCAN_DEPTH: usize = 30;

/// The label of the line that records the commit a branch was forked at.
pub open spec fn forked_at_label() -> Seq<char> {
    seq!['F', 'o', 'r', 'k', 'e', 'd', ' ', 'a', 't', ':']
}

/// The label of the line that records the branch a branch was forked from.
pub open spec fn parent_branch_label() -> Seq<char> {
    seq!['P', 'a', 'r', 'e', 'n', 't', ' ', 'b', 'r', 'a', 'n', 'c', 'h', ':']
}

/// Lineage facts recorded in commit messages.
#[derive(Debug, Clone, PartialEq, Eq)]
pub struct LineageFacts {
    pub forked_at: Option<String>,
    pub parent_branch: Option<String>,
}

pub open spec fn opt_view(o: Option<String>) -> Option<Seq<char>> {
    match o {
        Some(s) => Some(s@),
        None => None,
    }
}

impl View for LineageFacts {
    type V = (Option<Seq<char>>, Option<Seq<char>>);

    open spec fn view(&self) -> Self::V {
        (opt_view(self.forked_at), opt_view(self.parent_branch))
    }
}

/// Only white space stands between the start of the line holding position `j` and `j`.
pub open spec fn indent_only(m: Seq<char>, j: int) -> bool
    decreases j,
{
    if j <= 0 || j > m.len() {
        true
    } else if m[j - 1] == '\n' {
        true
    } else {
        is_ws(m[j - 1]) && indent_only(m, j - 1)
    }
}

/// The first position at or after `i` that holds no white space (or the end).
pub open spec fn skip_ws(m: Seq<char>, i: int) -> int
    decreases m.len() - i,
{
    if i < 0 || i >= m.len() || !is_ws(m[i]) {
        i
    } else {
        skip_ws(m, i + 1)
    }
}

/// The first position at or after `i` that holds white space (or the end).
pub open spec fn token_end(m: Seq<char>, i: int) -> int
    decreases m.len() - i,
{
    if i < 0 || i >= m.len() || is_ws(m[i]) {
        i
    } else {
        token_end(m, i + 1)
    }
}

/// The token that follows `label` placed at `j`, past any white space.
pub open spec fn value_after(m: Seq<char>, label: Seq<char>, j: int) -> Option<Seq<char>> {
    let s = skip_ws(m, j + label.len());
    if s < m.len() {
        Some(m.subrange(s, token_end(m, s)))
    } else {
        None
    }
}

/// A line of `m` starts, after white space, with `label` at `j`, and a token follows.
pub open spec fn labelled_at(m: Seq<char>, label: Seq<char>, j: int) -> bool {
    indent_only(m, j) && occurs_at(m, label, j) && value_after(m, label, j) is Some
}

pub open spec fn find_label(m: Seq<char>, label: Seq<char>, i: int) -> Option<Seq<char>>
    decreases m.len() - i,
{
    if i < 0 || i >= m.len() {
        None
    } else if labelled_at(m, label, i) {
        value_after(m, label, i)
    } else {
        find_label(m, label, i + 1)
    }
}

/// The value of the first line of `m` labelled `label`, if any.
pub open spec fn labelled_value(m: Seq<char>, label: Seq<char>) -> Option<Seq<char>> {
    find_label(m, label, 0)
}

/// The lineage facts that a single message states.
pub open spec fn decode_spec(m: Seq<char>) -> (Option<Seq<char>>, Option<Seq<char>>) {
    (labelled_value(m, forked_at_label()), labelled_value(m, parent_branch_label()))
}

fn skip_whitespace(m: &Vec<char>, i: usize) -> (r: usize)
    requires
        i <= m@.len(),
    ensures
        r as int == skip_ws(m@, i as int),
        i <= r <= m@.len(),
{
    let mut k = i;
    while k < m.len() && is_whitespace(m[k])
        invariant
            i <= k <= m@.len(),
            skip_ws(m@, k as int) == skip_ws(m@, i as int),
        decreases m@.len() - k,
    {
        k = k + 1;
    }
    k
}

fn skip_token(m: &Vec<char>, i: usize) -> (r: usize)
    requires
        i <= m@.len(),
    ensures
        r as int == token_end(m@, i as int),
        i <= r <= m@.len(),
{
    let mut k = i;
    while k < m.len() && !is_whitespace(m[k])
        invariant
            i <= k <= m@.len(),
            token_end(m@, k as int) == token_end(m@, i as int),
        decreases m@.len() - k,
    {
        k = k + 1;
    }
    k
}

/// Where the value of the first line labelled `label` stands in `m`.
fn find_labelled(m: &Vec<char>, label: &Vec<char>) -> (r: Option<(usize, usize)>)
    ensures
        match r {
            Some((s, e)) => s <= e <= m@.len() && labelled_value(m@, label@) == Some(
                m@.subrange(s as int, e as int),
            ),
            None => labelled_value(m@, label@) is None,
        },
{
    let n = m.len();
    let mut i: usize = 0;
    let mut indent = true;
    while i < n
        invariant
            n == m@.len(),
            i <= n,
            indent == indent_only(m@, i as int),
            find_label(m@, label@, 0) == find_label(m@, label@, i as int),
        decreases n - i,
    {
        if indent && matches_at(m, label, i) {
            let s = skip_whitespace(m, i + label.len());
            if s < n {
                let e = skip_token(m, s);
                return Some((s, e));
            }
        }
        indent = m[i] == '\n' || (is_whitespace(m[i]) && indent);
        i = i + 1;
    }
    None
}

/// The value of the first line of `message` labelled `label`, as text.
fn labelled_text(message: &str, m: &Vec<char>, label: &Vec<char>) -> (r: Option<String>)
    requires
        m@ == message@,
    ensures
        opt_view(r) == labelled_value(message@, label@),
{
    match find_labelled(m, label) {
        Some((s, e)) => Some(message.substring_char(s, e).to_string()),
        None => None,
    }
}

fn forked_at_label_chars() -> (r: Vec<char>)
    ensures
        r@ == forked_at_label(),
{
    let r = chars_of("Forked at:");
    proof {
        reveal_strlit("Forked at:");
    }
    assert(r@ =~= forked_at_label());
    r
}

fn parent_branch_label_chars() -> (r: Vec<char>)
    ensures
        r@ == parent_branch_label(),
{
    let r = chars_of("Parent branch:");
    proof {
        reveal_strlit("Parent branch:");
    }
    assert(r@ =~= parent_branch_label());
    r
}

/// Reads the lineage facts that `message` states: for each label, the token after the
/// first line that starts (after white space) with it; `None` where no such line is.
pub fn decode_lineage(message: &str) -> (r: LineageFacts)
    ensures
        r@ == decode_spec(message@),
{
    let m = chars_of(message);
    let forked_at = labelled_text(message, &m, &forked_at_label_chars());
    let parent_branch = labelled_text(message, &m, &parent_branch_label_chars());
    LineageFacts { forked_at, parent_branch }
}

/// The text that records `facts`: one line per present fact, forked-at first.
pub open spec fn encode_spec(facts: (Option<Seq<char>>, Option<Seq<char>>)) -> Seq<char> {
    let forked = match facts.0 {
        Some(h) => forked_at_label() + seq![' '] + h + seq!['\n'],
        None => Seq::empty(),
    };
    let parent = match facts.1 {
        Some(b) => parent_branch_label() + seq![' '] + b + seq!['\n'],
        None => Seq::empty(),
    };
    forked + parent
}

/// Writes the lines that record `facts` (`Forked at: <hash>`, `Parent branch: <ref>`).
pub fn encode_lineage(facts: &LineageFacts) -> (r: String)
    ensures
        r@ == encode_spec(facts@),
{
    proof {
        reveal_strlit("Forked at: ");
        reveal_strlit("Parent branch: ");
        reveal_strlit("\n");
    }
    let mut out = String::new();
    match &facts.forked_at {
        Some(h) => {
            out.append("Forked at: ");
            out.append(h.as_str());
            out.append("\n");
        },
        None => {},
    }
    match &facts.parent_branch {
        Some(b) => {
            out.append("Parent branch: ");
            out.append(b.as_str());
            out.append("\n");
        },
        None => {},
    }
    assert(out@ =~= encode_spec(facts@));
    out
}

/// The first value labelled `label` among the first `LINEAGE_SCAN_DEPTH` messages from `i` on.
pub open spec fn first_labelled(ms: Seq<Seq<char>>, label: Seq<char>, i: int) -> Option<Seq<char>>
    decreases LINEAGE_SCAN_DEPTH - i,
{
    if i < 0 || i >= ms.len() || i >= LINEAGE_SCAN_DEPTH {
        None
    } else {
        match labelled_value(ms[i], label) {
            Some(v) => Some(v),
            None => first_labelled(ms, label, i + 1),
        }
    }
}

pub open spec fn message_views(ms: Seq<String>) -> Seq<Seq<char>> {
    ms.map_values(|m: String| m@)
}

/// The lineage facts recovered from ancestor messages given nearest first: for each fact,
/// the first message within the scan depth that states it.
pub open spec fn recover_spec(ms: Seq<Seq<char>>) -> (Option<Seq<char>>, Option<Seq<char>>) {
    (first_labelled(ms, forked_at_label(), 0), first_labelled(ms, parent_branch_label(), 0))
}

/// Recovers lineage facts from the messages of `start` and its ancestors, nearest first.
/// Each fact is taken from the first message that states it; the scan stops once both are
/// known or `LINEAGE_SCAN_DEPTH` messages have been read.
pub fn recover_lineage(messages: &Vec<String>) -> (r: LineageFacts)
    ensures
        r@ == recover_spec(message_views(messages@)),
{
    let ghost ms = message_views(messages@);
    let forked_label = forked_at_label_chars();
    let parent_label = parent_branch_label_chars();
    let mut forked_at: Option<String> = None;
    let mut parent_branch: Option<String> = None;
    let mut i: usize = 0;
    while i < messages.len() && i < LINEAGE_SCAN_DEPTH && (forked_at.is_none()
        || parent_branch.is_none())
        invariant
            i <= messages@.len(),
            ms == message_views(messages@),
            forked_label@ == forked_at_label(),
            parent_label@ == parent_branch_label(),
            forked_at is None ==> first_labelled(ms, forked_at_label(), 0) == first_labelled(
                ms,
                forked_at_label(),
                i as int,
            ),
            forked_at is Some ==> opt_view(forked_at) == first_labelled(ms, forked_at_label(), 0),
            parent_branch is None ==> first_labelled(ms, parent_branch_label(), 0)
                == first_labelled(ms, parent_branch_label(), i as int),
            parent_branch is Some ==> opt_view(parent_branch) == first_labelled(
                ms,
                parent_branch_label(),
                0,
            ),
        decreases messages@.len() - i,
    {
        let message = messages[i].as_str();
        let m = chars_of(message);
        if forked_at.is_none() {
            forked_at = labelled_text(message, &m, &forked_label);
        }
        if parent_branch.is_none() {
            parent_branch = labelled_text(message, &m, &parent_label);
        }
        i = i + 1;
    }
    LineageFacts { forked_at, parent_branch }
}

/// `t` can stand as a lineage value: a non-empty run without white space.
pub open spec fn is_token(t: Seq<char>) -> bool {
    t.len() > 0 && forall|i: int| 0 <= i < t.len() ==> !is_ws(#[trigger] t[i])
}

proof fn lemma_not_indented(m: Seq<char>, i: int)
    requires
        1 <= i <= m.len(),
        !is_ws(m[0]),
        forall|k: int| 0 <= k < i ==> m[k] != '\n',
    ensures
        !indent_only(m, i),
    decreases i,
{
    if i > 1 {
        lemma_not_indented(m, i - 1);
    }
}

proof fn lemma_token_end(m: Seq<char>, i: int, j: int)
    requires
        0 <= i <= j < m.len(),
        is_ws(m[j]),
        forall|k: int| i <= k < j ==> !is_ws(m[k]),
    ensures
        token_end(m, i) == j,
    decreases j - i,
{
    if i < j {
        lemma_token_end(m, i + 1, j);
    }
}

proof fn lemma_skip_unlabelled(m: Seq<char>, label: Seq<char>, i: int, j: int)
    requires
        0 <= i <= j,
        forall|k: int| i <= k < j ==> !labelled_at(m, label, k),
    ensures
        find_label(m, label, i) == find_label(m, label, j),
    decreases j - i,
{
    if i < j {
        lemma_skip_unlabelled(m, label, i + 1, j);
    }
}

/// One encoded line, `label value\n`, at `o` in `m`: the label is found there with its value.
proof fn lemma_line_value(m: Seq<char>, label: Seq<char>, value: Seq<char>, o: int)
    requires
        is_token(value),
        label.len() > 0,
        0 <= o,
        o + label.len() + value.len() + 2 <= m.len(),
        m.subrange(o, o + label.len() + value.len() + 2) == label + seq![' '] + value + seq![
            '\n',
        ],
        indent_only(m, o),
    ensures
        labelled_at(m, label, o),
        value_after(m, label, o) == Some(value),
{
    let line = label + seq![' '] + value + seq!['\n'];
    let l = label.len() as int;
    let end = o + l + 1 + value.len();
    assert(m.subrange(o, o + l) =~= line.subrange(0, l));
    assert(line.subrange(0, l) =~= label);
    assert(m[o + l] == line[l]);
    assert(is_ws(m[o + l]));
    assert(m[o + l + 1] == line[l + 1]);
    assert(line[l + 1] == value[0]);
    assert(!is_ws(m[o + l + 1]));
    assert(skip_ws(m, o + l + 1) == o + l + 1);
    assert(skip_ws(m, o + l) == o + l + 1);
    assert forall|k: int| o + l + 1 <= k < end implies !is_ws(m[k]) by {
        assert(m[k] == line[k - o]);
        assert(line[k - o] == value[k - o - l - 1]);
    }
    assert(m[end] == line[end - o]);
    assert(is_ws(m[end]));
    lemma_token_end(m, o + l + 1, end);
    assert forall|k: int| 0 <= k < value.len() implies m[o + l + 1 + k] == value[k] by {
        assert(m[o + l + 1 + k] == line[l + 1 + k]);
    }
    assert(m.subrange(o + l + 1, end) =~= value);
}

/// No position before `o` in `m` holds `label` at a line start, when `m` starts with a
/// character that is neither white space nor the label's first, and no newline comes before
/// `o - 1`.
proof fn lemma_no_label_before(m: Seq<char>, label: Seq<char>, o: int)
    requires
        1 <= o <= m.len(),
        label.len() > 0,
        !is_ws(m[0]),
        m[0] != label[0],
        forall|k: int| 0 <= k < o - 1 ==> m[k] != '\n',
    ensures
        find_label(m, label, 0) == find_label(m, label, o),
{
    assert forall|k: int| 0 <= k < o implies !labelled_at(m, label, k) by {
        if k == 0 {
            if occurs_at(m, label, 0) {
                assert(m.subrange(0, label.len() as int)[0] == m[0]);
            }
        } else {
            lemma_not_indented(m, k);
        }
    }
    lemma_skip_unlabelled(m, label, 0, o);
}

/// Reading back what `encode_lineage` writes gives the same facts, for values that are
/// tokens (non-empty, without white space).
pub proof fn lemma_decode_encode(facts: (Option<Seq<char>>, Option<Seq<char>>))
    requires
        facts.0 is Some ==> is_token(facts.0->Some_0),
        facts.1 is Some ==> is_token(facts.1->Some_0),
    ensures
        decode_spec(encode_spec(facts)) == facts,
{
    let m = encode_spec(facts);
    let fl = forked_at_label();
    let pl = parent_branch_label();
    let f_line = match facts.0 {
        Some(h) => fl + seq![' '] + h + seq!['\n'],
        None => Seq::empty(),
    };
    let p_line = match facts.1 {
        Some(b) => pl + seq![' '] + b + seq!['\n'],
        None => Seq::empty(),
    };
    assert(m == f_line + p_line);
    let o = f_line.len() as int;
    // The forked-at fact.
    match facts.0 {
        Some(h) => {
            assert(m.subrange(0, o) =~= f_line);
            lemma_line_value(m, fl, h, 0);
        },
        None => {
            if m.len() > 0 {
                assert(m =~= p_line);
                assert(m[0] == 'P');
                assert forall|k: int| 0 <= k < m.len() - 1 implies m[k] != '\n' by {
                    let b = facts.1->Some_0;
                    if k > pl.len() {
                        assert(m[k] == b[k - pl.len() - 1]);
                    }
                }
                lemma_no_label_before(m, fl, m.len() as int);
            }
        },
    }
    // The parent-branch fact.
    match facts.1 {
        Some(b) => {
            if o > 0 {
                assert(m[0] == 'F');
                assert forall|k: int| 0 <= k < o - 1 implies m[k] != '\n' by {
                    let h = facts.0->Some_0;
                    if k > fl.len() {
                        assert(m[k] == h[k - fl.len() - 1]);
                    }
                }
                lemma_no_label_before(m, pl, o);
                assert(m[o - 1] == '\n');
            }
            assert(m.subrange(o, m.len() as int) =~= p_line);
            lemma_line_value(m, pl, b, o);
        },
        None => {
            if m.len() > 0 {
                assert(m =~= f_line);
                assert(m[0] == 'F');
                assert forall|k: int| 0 <= k < m.len() - 1 implies m[k] != '\n' by {
                    let h = facts.0->Some_0;
                    if k > fl.len() {
                        assert(m[k] == h[k - fl.len() - 1]);
                    }
                }
                lemma_no_label_before(m, pl, m.len() as int);
            }
        },
    }
}

} // verus!
