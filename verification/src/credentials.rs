//! Reading the listing of `cmdkey /list` and deciding what to delete.

use vstd::prelude::*;

use crate::text::{
    chars_of, chars_start_with, decode_utf8_lossy, lowercase_of, starts_with, text_views,
    texts_equal, to_lowercase, trim, trim_bounds, trim_str, utf8_lossy_text,
    lemma_trim_idempotent, is_white_space,
};

verus! {

/// The lines of `s`: the pieces between the `'\n'` characters, the last one
/// included even when it is empty.
pub open spec fn lines_of(s: Seq<char>) -> Seq<Seq<char>>
    decreases s.len(),
{
    if s.len() == 0 {
        seq![Seq::<char>::empty()]
    } else {
        let init = lines_of(s.drop_last());
        if s.last() == '\n' {
            init.push(Seq::<char>::empty())
        } else {
            init.update(init.len() - 1, init.last().push(s.last()))
        }
    }
}

/// The labels, in lower case, that open a line naming a stored credential,
/// in Portuguese and in English.
pub open spec fn header_labels() -> Seq<Seq<char>> {
    seq![
        "destino:"@,
        "target:"@,
        "credencial do windows:"@,
        "credencial genérica:"@,
        "credencial de certificado:"@,
        "windows credential:"@,
        "generic credential:"@,
        "certificate credential:"@,
    ]
}

/// Whether a lower-cased line opens with one of the header labels.
pub open spec fn is_header(lowered: Seq<char>) -> bool {
    exists|k: int| 0 <= k < header_labels().len() && starts_with(lowered, #[trigger] header_labels()[k])
}

/// Whether `": "` starts at position `i` of `t`.
pub open spec fn separator_at(t: Seq<char>, i: int) -> bool {
    0 <= i && i + 1 < t.len() && t[i] == ':' && t[i + 1] == ' '
}

/// The first position at or after `k` where `": "` starts in `t`.
pub open spec fn separator_from(t: Seq<char>, k: int) -> Option<int>
    decreases t.len() - k,
{
    if k < 0 || k + 1 >= t.len() {
        None
    } else if separator_at(t, k) {
        Some(k)
    } else {
        separator_from(t, k + 1)
    }
}

/// The credential that one line of the listing names, if it names one: the
/// line, trimmed, opens (in lower case) with a header label, and the text
/// after its first `": "`, trimmed, is not empty.
pub open spec fn line_target(line: Seq<char>) -> Option<Seq<char>> {
    let t = trim(line);
    if !is_header(lowercase_of(t)) {
        None
    } else {
        match separator_from(t, 0) {
            Some(i) => {
                let v = trim(t.skip(i + 2));
                if v.len() > 0 {
                    Some(v)
                } else {
                    None
                }
            },
            None => None,
        }
    }
}

/// The credentials that the given lines name, in order.
pub open spec fn targets_in_lines(lines: Seq<Seq<char>>) -> Seq<Seq<char>>
    decreases lines.len(),
{
    if lines.len() == 0 {
        Seq::empty()
    } else {
        let init = targets_in_lines(lines.drop_last());
        match line_target(lines.last()) {
            Some(t) => init.push(t),
            None => init,
        }
    }
}

/// The credentials that a listing of `cmdkey /list` names, in order.
pub open spec fn cmdkey_targets(output: Seq<char>) -> Seq<Seq<char>> {
    targets_in_lines(lines_of(output))
}

/// An optional string taken by its view.
pub open spec fn option_text(o: Option<String>) -> Option<Seq<char>> {
    match o {
        Some(s) => Some(s@),
        None => None,
    }
}

/// The header label number `k`.
fn header_label(k: usize) -> (r: &'static str)
    requires
        k < 8,
    ensures
        r@ == header_labels()[k as int],
{
    match k {
        0 => "destino:",
        1 => "target:",
        2 => "credencial do windows:",
        3 => "credencial genérica:",
        4 => "credencial de certificado:",
        5 => "windows credential:",
        6 => "generic credential:",
        _ => "certificate credential:",
    }
}

/// Whether a line, already in lower case, opens with one of the labels that
/// name a stored credential.
pub fn is_target_header(lowered: &str) -> (r: bool)
    ensures
        r == is_header(lowered@),
{
    let chars = chars_of(lowered);
    let mut k: usize = 0;
    while k < 8
        invariant
            chars@ == lowered@,
            k <= 8,
            header_labels().len() == 8,
            forall|j: int| 0 <= j < k ==> !starts_with(lowered@, #[trigger] header_labels()[j]),
        decreases 8 - k,
    {
        let label = chars_of(header_label(k));
        if chars_start_with(&chars, &label) {
            return true;
        }
        k = k + 1;
    }
    false
}

/// The first position where `": "` starts within `chars[lo..hi]`, counted
/// from `lo`.
fn find_separator(chars: &Vec<char>, lo: usize, hi: usize) -> (r: Option<usize>)
    requires
        lo <= hi <= chars@.len(),
    ensures
        match r {
            Some(i) => {
                &&& separator_from(chars@.subrange(lo as int, hi as int), 0) == Some(i as int)
                &&& lo + i + 2 <= hi
            },
            None => separator_from(chars@.subrange(lo as int, hi as int), 0) is None,
        },
{
    let ghost t = chars@.subrange(lo as int, hi as int);
    let mut k: usize = lo;
    while hi - k >= 2
        invariant
            lo <= k <= hi,
            lo <= hi <= chars@.len(),
            t == chars@.subrange(lo as int, hi as int),
            separator_from(t, 0) == separator_from(t, k - lo),
        decreases hi - k,
    {
        if chars[k] == ':' && chars[k + 1] == ' ' {
            assert(separator_at(t, k - lo));
            return Some(k - lo);
        }
        k = k + 1;
    }
    None
}

/// The credential that the line `chars[a..b]` of `output` names, if any.
fn target_of_line(output: &str, chars: &Vec<char>, a: usize, b: usize) -> (r: Option<String>)
    requires
        chars@ == output@,
        a <= b <= chars@.len(),
    ensures
        option_text(r) == line_target(chars@.subrange(a as int, b as int)),
{
    let (lo, hi) = trim_bounds(chars, a, b);
    let ghost t = chars@.subrange(lo as int, hi as int);
    let trimmed = output.substring_char(lo, hi);
    let lowered = to_lowercase(trimmed);
    if !is_target_header(lowered.as_str()) {
        return None;
    }
    match find_separator(chars, lo, hi) {
        None => None,
        Some(i) => {
            let start = lo + i + 2;
            assert(t.skip(i + 2) =~= chars@.subrange(start as int, hi as int));
            let (ra, rb) = trim_bounds(chars, start, hi);
            if ra < rb {
                Some(String::from_str(output.substring_char(ra, rb)))
            } else {
                None
            }
        },
    }
}

/// Reads the output of `cmdkey /list` and returns the names of the stored
/// credentials, in the order listed. A line names one when, trimmed, it opens
/// (ignoring case) with a label such as `Target:` or `Credencial do Windows:`;
/// the name is what follows the first `": "` on it, trimmed, if not empty.
pub fn parse_cmdkey_targets(output: &str) -> (targets: Vec<String>)
    ensures
        text_views(targets@) == cmdkey_targets(output@),
{
    let chars = chars_of(output);
    let n = chars.len();
    let mut targets: Vec<String> = Vec::new();
    let ghost mut done: Seq<Seq<char>> = Seq::empty();
    let mut start: usize = 0;
    let mut i: usize = 0;
    assert(chars@.take(0) =~= Seq::<char>::empty());
    assert(chars@.subrange(0, 0) =~= Seq::<char>::empty());
    assert(seq![Seq::<char>::empty()] =~= done.push(chars@.subrange(0, 0)));
    while i < n
        invariant
            chars@ == output@,
            n == chars@.len(),
            start <= i <= n,
            lines_of(chars@.take(i as int)) == done.push(chars@.subrange(start as int, i as int)),
            text_views(targets@) == targets_in_lines(done),
        decreases n - i,
    {
        let ghost prefix = chars@.take(i as int + 1);
        assert(prefix.drop_last() =~= chars@.take(i as int));
        assert(prefix.last() == chars@[i as int]);
        if chars[i] == '\n' {
            let found = target_of_line(output, &chars, start, i);
            proof {
                let line = chars@.subrange(start as int, i as int);
                let next = done.push(line);
                assert(next.drop_last() =~= done);
                assert(next.last() == line);
            }
            match found {
                Some(t) => {
                    targets.push(t);
                },
                None => {},
            }
            proof {
                let line = chars@.subrange(start as int, i as int);
                done = done.push(line);
                assert(text_views(targets@) =~= targets_in_lines(done));
                assert(chars@.subrange(i as int + 1, i as int + 1) =~= Seq::<char>::empty());
            }
            start = i + 1;
        } else {
            proof {
                let cur = chars@.subrange(start as int, i as int);
                assert(chars@.subrange(start as int, i as int + 1) =~= cur.push(chars@[i as int]));
                assert(done.push(cur).update(done.len() as int, cur.push(chars@[i as int]))
                    =~= done.push(chars@.subrange(start as int, i as int + 1)));
            }
        }
        i = i + 1;
    }
    assert(chars@.take(n as int) =~= chars@);
    let last = target_of_line(output, &chars, start, n);
    proof {
        let line = chars@.subrange(start as int, n as int);
        let all = done.push(line);
        assert(all.drop_last() =~= done);
        assert(all.last() == line);
    }
    match last {
        Some(t) => {
            targets.push(t);
        },
        None => {},
    }
    assert(text_views(targets@) =~= cmdkey_targets(output@));
    targets
}

/// Reads the raw bytes that `cmdkey /list` printed: they are decoded as UTF-8,
/// with invalid sequences replaced, and then read as
/// [`parse_cmdkey_targets`] does.
pub fn parse_cmdkey_output(stdout: &[u8]) -> (targets: Vec<String>)
    ensures
        text_views(targets@) == cmdkey_targets(utf8_lossy_text(stdout@)),
{
    let text = decode_utf8_lossy(stdout);
    parse_cmdkey_targets(text.as_str())
}

/// The answers, in lower case, that confirm the deletion of all credentials.
pub open spec fn confirmation_words() -> Seq<Seq<char>> {
    seq!["s"@, "sim"@, "y"@, "yes"@]
}

/// The answers that confirm the deletion of all credentials are exactly `s`,
/// `sim`, `y` and `yes`: any other text, such as `não` or `n`, declines.
pub proof fn lemma_confirmation_words_are_exactly(w: Seq<char>)
    ensures
        confirmation_words().contains(w) <==> (w == "s"@ || w == "sim"@ || w == "y"@ || w
            == "yes"@),
{
    let c = confirmation_words();
    assert(c.len() == 4 && c[0] == "s"@ && c[1] == "sim"@ && c[2] == "y"@ && c[3] == "yes"@);
    if w == "s"@ {
        assert(c[0] == w);
    } else if w == "sim"@ {
        assert(c[1] == w);
    } else if w == "y"@ {
        assert(c[2] == w);
    } else if w == "yes"@ {
        assert(c[3] == w);
    }
}

/// Whether an answer, already trimmed and in lower case, confirms.
pub fn is_affirmative(lowered: &str) -> (r: bool)
    ensures
        r == confirmation_words().contains(lowered@),
        r == (lowered@ == "s"@ || lowered@ == "sim"@ || lowered@ == "y"@ || lowered@ == "yes"@),
{
    let r = texts_equal(lowered, "s") || texts_equal(lowered, "sim") || texts_equal(lowered, "y")
        || texts_equal(lowered, "yes");
    proof {
        lemma_confirmation_words_are_exactly(lowered@);
        let w = confirmation_words();
        if r {
            assert(w[0] == "s"@ && w[1] == "sim"@ && w[2] == "y"@ && w[3] == "yes"@);
        } else {
            assert forall|k: int| 0 <= k < w.len() implies w[k] != lowered@ by {
                assert(w[0] == "s"@ && w[1] == "sim"@ && w[2] == "y"@ && w[3] == "yes"@);
            }
        }
    }
    r
}

/// Whether the answer typed at the confirmation prompt confirms: trimmed and
/// in lower case, it is `s`, `sim`, `y` or `yes`. A blank answer declines.
pub fn is_confirmed(answer: &str) -> (r: bool)
    ensures
        r == confirmation_words().contains(lowercase_of(trim(answer@))),
        r == ({
            let l = lowercase_of(trim(answer@));
            l == "s"@ || l == "sim"@ || l == "y"@ || l == "yes"@
        }),
        trim(answer@).len() == 0 ==> !r,
{
    let trimmed = trim_str(answer);
    let lowered = to_lowercase(trimmed);
    proof {
        reveal_strlit("s");
        reveal_strlit("sim");
        reveal_strlit("y");
        reveal_strlit("yes");
        let w = confirmation_words();
        assert forall|k: int| 0 <= k < w.len() implies (#[trigger] w[k]).len() > 0 by {}
    }
    is_affirmative(lowered.as_str())
}

/// The argument of `cmdkey` that deletes a credential: `/delete:` and the
/// trimmed name, or nothing when the trimmed name is empty.
pub open spec fn deletion_argument_of(target: Seq<char>) -> Option<Seq<char>> {
    if trim(target).len() == 0 {
        None
    } else {
        Some("/delete:"@ + trim(target))
    }
}

/// The argument that makes `cmdkey` delete the credential `target`; `None`
/// when the name is blank, and the credential is then skipped.
pub fn deletion_argument(target: &str) -> (r: Option<String>)
    ensures
        option_text(r) == deletion_argument_of(target@),
{
    let trimmed = trim_str(target);
    if trimmed.unicode_len() == 0 {
        None
    } else {
        Some(String::from_str("/delete:").concat(trimmed))
    }
}

/// What is reported of a deletion that `cmdkey` refused, from the text it
/// wrote to its error stream.
pub open spec fn failure_detail_of(stderr_text: Seq<char>) -> Seq<char> {
    if trim(stderr_text).len() == 0 {
        "falha desconhecida"@
    } else {
        trim(stderr_text)
    }
}

/// The detail reported of a refused deletion: the error text, trimmed, or
/// `falha desconhecida` when there is none.
pub fn failure_detail(stderr_text: &str) -> (r: String)
    ensures
        r@ == failure_detail_of(stderr_text@),
{
    let trimmed = trim_str(stderr_text);
    if trimmed.unicode_len() == 0 {
        String::from_str("falha desconhecida")
    } else {
        String::from_str(trimmed)
    }
}

/// The detail reported of a refused deletion, from the raw bytes of the
/// error stream of `cmdkey`.
pub fn describe_failed_deletion(stderr: &[u8]) -> (r: String)
    ensures
        r@ == failure_detail_of(utf8_lossy_text(stderr@)),
{
    let text = decode_utf8_lossy(stderr);
    failure_detail(text.as_str())
}

/// How many credentials were deleted and how many deletions failed.
pub struct CredentialTally {
    pub deleted: u32,
    pub errors: u32,
}

impl CredentialTally {
    /// No deletion yet.
    pub fn new() -> (r: Self)
        ensures
            r.deleted == 0,
            r.errors == 0,
    {
        CredentialTally { deleted: 0, errors: 0 }
    }

    /// Counts one more deleted credential.
    pub fn record_deleted(&mut self)
        requires
            old(self).deleted < u32::MAX,
        ensures
            final(self).deleted == old(self).deleted + 1,
            final(self).errors == old(self).errors,
    {
        self.deleted = self.deleted + 1;
    }

    /// Counts one more failed deletion.
    pub fn record_error(&mut self)
        requires
            old(self).errors < u32::MAX,
        ensures
            final(self).errors == old(self).errors + 1,
            final(self).deleted == old(self).deleted,
    {
        self.errors = self.errors + 1;
    }
}

/// A text with no newline is a single line.
proof fn lemma_single_line(s: Seq<char>)
    requires
        !s.contains('\n'),
    ensures
        lines_of(s) == seq![s],
    decreases s.len(),
{
    if s.len() == 0 {
        assert(s =~= Seq::<char>::empty());
    } else {
        let d = s.drop_last();
        assert(!d.contains('\n')) by {
            if d.contains('\n') {
                let i = choose|i: int| 0 <= i < d.len() && d[i] == '\n';
                assert(s[i] == '\n');
            }
        }
        lemma_single_line(d);
        assert(s.last() != '\n') by {
            assert(s[s.len() - 1] == s.last());
        }
        assert(d.push(s.last()) =~= s);
        assert(seq![d].update(0, d.push(s.last())) =~= seq![s]);
    }
}

/// Trimming leaves alone a text whose ends are not white space.
proof fn lemma_trim_of_solid_ends(s: Seq<char>)
    requires
        s.len() > 0,
        !is_white_space(s[0]),
        !is_white_space(s.last()),
    ensures
        trim(s) == s,
{
}

/// A line `Target: <name>` names exactly `<name>`, whatever characters the
/// name holds (slashes, colons, further `": "`), as long as the name has no
/// white space at either end and no newline; the one thing assumed is that
/// the line in lower case opens with `target:`.
pub proof fn lemma_target_line_names_its_text(t: Seq<char>)
    requires
        t.len() > 0,
        !is_white_space(t[0]),
        !is_white_space(t.last()),
        !t.contains('\n'),
        starts_with(lowercase_of("Target: "@ + t), "target:"@),
    ensures
        cmdkey_targets("Target: "@ + t) == seq![t],
{
    reveal_strlit("Target: ");
    reveal_strlit("target:");
    let p = "Target: "@;
    let s = p + t;
    assert(p.len() == 8);
    assert(s.len() == 8 + t.len());
    assert(!s.contains('\n')) by {
        if s.contains('\n') {
            let i = choose|i: int| 0 <= i < s.len() && s[i] == '\n';
            if i >= 8 {
                assert(t[i - 8] == '\n');
            }
        }
    }
    lemma_single_line(s);
    assert(s[0] == 'T');
    assert(s.last() == t.last());
    lemma_trim_of_solid_ends(s);
    lemma_trim_of_solid_ends(t);
    assert(header_labels()[1] == "target:"@);
    assert(is_header(lowercase_of(s)));
    assert(separator_at(s, 6));
    assert(separator_from(s, 6) == Some(6int));
    assert(!separator_at(s, 5));
    assert(separator_from(s, 5) == Some(6int));
    assert(!separator_at(s, 4));
    assert(separator_from(s, 4) == Some(6int));
    assert(!separator_at(s, 3));
    assert(separator_from(s, 3) == Some(6int));
    assert(!separator_at(s, 2));
    assert(separator_from(s, 2) == Some(6int));
    assert(!separator_at(s, 1));
    assert(separator_from(s, 1) == Some(6int));
    assert(!separator_at(s, 0));
    assert(separator_from(s, 0) == Some(6int));
    assert(s.skip(8) =~= t);
    assert(line_target(s) == Some(t));
    let ls = seq![s];
    assert(ls.drop_last() =~= Seq::<Seq<char>>::empty());
    assert(ls.last() == s);
    assert(targets_in_lines(Seq::<Seq<char>>::empty()) == Seq::<Seq<char>>::empty());
    assert(targets_in_lines(ls) == Seq::<Seq<char>>::empty().push(t));
    assert(cmdkey_targets(s) =~= seq![t]);
}

/// Every credential read from a listing is non-empty and has no white space
/// at either end, so that each one yields a `cmdkey` deletion argument: none
/// of them is skipped as blank.
pub proof fn lemma_parsed_targets_are_deletable(output: Seq<char>)
    ensures
        forall|i: int|
            0 <= i < cmdkey_targets(output).len() ==> {
                &&& (#[trigger] cmdkey_targets(output)[i]).len() > 0
                &&& trim(cmdkey_targets(output)[i]) == cmdkey_targets(output)[i]
                &&& deletion_argument_of(cmdkey_targets(output)[i]) == Some(
                    "/delete:"@ + cmdkey_targets(output)[i],
                )
            },
{
    lemma_targets_trimmed(lines_of(output));
}

/// Each credential named by some lines is non-empty and trimmed.
proof fn lemma_targets_trimmed(lines: Seq<Seq<char>>)
    ensures
        forall|i: int|
            0 <= i < targets_in_lines(lines).len() ==> {
                &&& (#[trigger] targets_in_lines(lines)[i]).len() > 0
                &&& trim(targets_in_lines(lines)[i]) == targets_in_lines(lines)[i]
            },
    decreases lines.len(),
{
    if lines.len() > 0 {
        lemma_targets_trimmed(lines.drop_last());
        let init = targets_in_lines(lines.drop_last());
        let t = trim(lines.last());
        match separator_from(t, 0) {
            Some(i) => lemma_trim_idempotent(t.skip(i + 2)),
            None => {},
        }
        match line_target(lines.last()) {
            Some(v) => {
                assert(trim(v) == v);
                assert forall|i: int| 0 <= i < init.len() + 1 implies {
                    &&& (#[trigger] init.push(v)[i]).len() > 0
                    &&& trim(init.push(v)[i]) == init.push(v)[i]
                } by {
                    if i < init.len() {
                        assert(init.push(v)[i] == init[i]);
                    }
                }
            },
            None => {},
        }
    }
}

/// A text always has at least one line.
proof fn lemma_lines_nonempty(s: Seq<char>)
    ensures
        lines_of(s).len() >= 1,
    decreases s.len(),
{
    if s.len() > 0 {
        lemma_lines_nonempty(s.drop_last());
    }
}

/// The lines of two texts joined by a newline are the lines of the first
/// followed by those of the second.
proof fn lemma_lines_concat(a: Seq<char>, b: Seq<char>)
    ensures
        lines_of(a + seq!['\n'] + b) == lines_of(a) + lines_of(b),
    decreases b.len(),
{
    let c = a + seq!['\n'] + b;
    if b.len() == 0 {
        assert(c.drop_last() =~= a);
        assert(lines_of(a) + lines_of(b) =~= lines_of(a).push(Seq::<char>::empty()));
    } else {
        assert(c.drop_last() =~= a + seq!['\n'] + b.drop_last());
        lemma_lines_concat(a, b.drop_last());
        lemma_lines_nonempty(b.drop_last());
        let la = lines_of(a);
        let lb = lines_of(b.drop_last());
        if b.last() == '\n' {
            assert((la + lb).push(Seq::<char>::empty()) =~= la + lb.push(Seq::<char>::empty()));
        } else {
            let x = lb.last().push(b.last());
            assert((la + lb).last() == lb.last());
            assert((la + lb).update((la + lb).len() - 1, x) =~= la + lb.update(lb.len() - 1, x));
        }
    }
}

/// The credentials named by two runs of lines are those of the first run
/// followed by those of the second.
proof fn lemma_targets_concat(x: Seq<Seq<char>>, y: Seq<Seq<char>>)
    ensures
        targets_in_lines(x + y) == targets_in_lines(x) + targets_in_lines(y),
    decreases y.len(),
{
    if y.len() == 0 {
        assert(x + y =~= x);
        assert(targets_in_lines(x) + targets_in_lines(y) =~= targets_in_lines(x));
    } else {
        assert((x + y).drop_last() =~= x + y.drop_last());
        assert((x + y).last() == y.last());
        lemma_targets_concat(x, y.drop_last());
        let tx = targets_in_lines(x);
        let ty = targets_in_lines(y.drop_last());
        match line_target(y.last()) {
            Some(t) => {
                assert((tx + ty).push(t) =~= tx + ty.push(t));
            },
            None => {},
        }
    }
}

/// The listing is read line by line: the credentials of two listings joined
/// by a newline are those of the first followed by those of the second.
pub proof fn lemma_targets_of_joined_listings(a: Seq<char>, b: Seq<char>)
    ensures
        cmdkey_targets(a + seq!['\n'] + b) == cmdkey_targets(a) + cmdkey_targets(b),
{
    lemma_lines_concat(a, b);
    lemma_targets_concat(lines_of(a), lines_of(b));
}

} // verus!
