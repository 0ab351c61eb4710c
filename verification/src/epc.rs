//! The payload of a credit transfer QR code and its text form.

use crate::amount;
use crate::fields::{
    CharacterSet, Identification, Purpose, PurposeView, Remittance, RemittanceView, ServiceTag,
    Version,
};
use crate::iban;
use vstd::prelude::*;

verus! {

/// The view of a value that may be absent.
pub open spec fn opt_view<T: View>(o: Option<T>) -> Option<T::V> {
    match o {
        Some(x) => Some(x@),
        None => None,
    }
}

/// The line that an optional text takes: the text, or nothing.
pub open spec fn opt_line(o: Option<Seq<char>>) -> Seq<char> {
    match o {
        Some(s) => s,
        None => Seq::empty(),
    }
}

/// The lines joined by line feeds, with none after the last.
pub open spec fn join_lines(lines: Seq<Seq<char>>) -> Seq<char>
    decreases lines.len(),
{
    if lines.len() == 0 {
        Seq::empty()
    } else if lines.len() == 1 {
        lines[0]
    } else {
        join_lines(lines.drop_last()) + seq!['\n'] + lines.last()
    }
}

/// What a payload holds, as plain values.
pub struct EpcView {
    pub service_tag: ServiceTag,
    pub version: Version,
    pub character_set: CharacterSet,
    pub identification: Identification,
    pub bic: Option<Seq<char>>,
    pub beneficiary: Seq<char>,
    pub iban: Seq<char>,
    pub amount: Option<Seq<char>>,
    pub purpose: Option<PurposeView>,
    pub remittance: Option<RemittanceView>,
    pub information: Option<Seq<char>>,
}

impl EpcView {
    /// The rules that every payload keeps: a BIC where the version asks for
    /// one, a beneficiary, a valid IBAN without spaces, and, where they are
    /// given, a well-formed amount, purpose and remittance.
    pub open spec fn valid(self) -> bool {
        &&& self.version.requires_bic() ==> self.bic is Some
        &&& self.beneficiary.len() > 0
        &&& iban::valid_compact(self.iban)
        &&& self.amount matches Some(a) ==> amount::valid(a)
        &&& self.purpose matches Some(p) ==> p.valid()
        &&& self.remittance matches Some(r) ==> r.valid()
    }

    /// The line of the structured reference: empty unless one is given.
    pub open spec fn reference_line(self) -> Seq<char> {
        match self.remittance {
            Some(RemittanceView::Reference(r)) => r,
            _ => Seq::empty(),
        }
    }

    /// The line of the remittance text: empty unless one is given.
    pub open spec fn text_line(self) -> Seq<char> {
        match self.remittance {
            Some(RemittanceView::Text(t)) => t,
            _ => Seq::empty(),
        }
    }

    /// The line of the purpose: its code, or nothing.
    pub open spec fn purpose_line(self) -> Seq<char> {
        match self.purpose {
            Some(p) => p.code(),
            None => Seq::empty(),
        }
    }

    /// The twelve lines of the payload, each field at its fixed place. A
    /// field that is absent leaves its line empty.
    pub open spec fn lines(self) -> Seq<Seq<char>> {
        seq![
            self.service_tag.code(),
            self.version.code(),
            self.character_set.code(),
            self.identification.code(),
            opt_line(self.bic),
            self.beneficiary,
            self.iban,
            opt_line(self.amount),
            self.purpose_line(),
            self.reference_line(),
            self.text_line(),
            opt_line(self.information),
        ]
    }

    /// The payload as text: its lines joined by line feeds.
    pub open spec fn text(self) -> Seq<char> {
        join_lines(self.lines())
    }
}

/// Joining one more line appends a line feed and the line.
pub proof fn lemma_join_push(lines: Seq<Seq<char>>, line: Seq<char>)
    requires
        lines.len() > 0,
    ensures
        join_lines(lines.push(line)) == join_lines(lines) + seq!['\n'] + line,
{
    assert(lines.push(line).drop_last() =~= lines);
}

/// The first `j` lines joined are the first `j - 1` joined, a line feed and
/// line `j`.
pub proof fn lemma_join_take(lines: Seq<Seq<char>>, j: int)
    requires
        2 <= j <= lines.len(),
    ensures
        join_lines(lines.take(j)) == join_lines(lines.take(j - 1)) + seq!['\n'] + lines[j - 1],
{
    lemma_join_push(lines.take(j - 1), lines[j - 1]);
    assert(lines.take(j) =~= lines.take(j - 1).push(lines[j - 1]));
}

/// The text of a payload written out line by line.
pub proof fn lemma_text_unfolded(e: EpcView)
    ensures
        e.lines().len() == 12,
        e.text() == e.service_tag.code() + seq!['\n'] + e.version.code() + seq!['\n']
            + e.character_set.code() + seq!['\n'] + e.identification.code() + seq!['\n']
            + opt_line(e.bic) + seq!['\n'] + e.beneficiary + seq!['\n'] + e.iban + seq!['\n']
            + opt_line(e.amount) + seq!['\n'] + e.purpose_line() + seq!['\n']
            + e.reference_line() + seq!['\n'] + e.text_line() + seq!['\n'] + opt_line(
            e.information,
        ),
{
    let l = e.lines();
    assert(l.take(12) =~= l);
    assert(join_lines(l.take(1)) == l[0]);
    lemma_join_take(l, 2);
    lemma_join_take(l, 3);
    lemma_join_take(l, 4);
    lemma_join_take(l, 5);
    lemma_join_take(l, 6);
    lemma_join_take(l, 7);
    lemma_join_take(l, 8);
    lemma_join_take(l, 9);
    lemma_join_take(l, 10);
    lemma_join_take(l, 11);
    lemma_join_take(l, 12);
}

/// The payload of a credit transfer QR code. It is made by
/// [`Builder::build`](crate::builder::Builder::build) and keeps the rules
/// of [`EpcView::valid`] for as long as it lives.
#[derive(Debug, PartialEq)]
pub struct Epc {
    service_tag: ServiceTag,
    version: Version,
    character_set: CharacterSet,
    identification: Identification,
    bic: Option<String>,
    beneficiary: String,
    iban: String,
    amount: Option<String>,
    purpose: Option<Purpose>,
    remittance: Option<Remittance>,
    information: Option<String>,
}

impl View for Epc {
    type V = EpcView;

    closed spec fn view(&self) -> EpcView {
        EpcView {
            service_tag: self.service_tag,
            version: self.version,
            character_set: self.character_set,
            identification: self.identification,
            bic: opt_view(self.bic),
            beneficiary: self.beneficiary@,
            iban: self.iban@,
            amount: opt_view(self.amount),
            purpose: opt_view(self.purpose),
            remittance: opt_view(self.remittance),
            information: opt_view(self.information),
        }
    }
}

/// Appends a line feed and a line to a text.
fn append_line(out: &mut String, line: &str)
    ensures
        final(out)@ == old(out)@ + seq!['\n'] + line@,
{
    proof {
        reveal_strlit("\n");
    }
    out.append("\n");
    assert("\n"@ =~= seq!['\n']);
    out.append(line);
}

/// The text of an optional field: what it holds, or the empty text.
fn opt_str(o: &Option<String>) -> (r: &str)
    ensures
        r@ == opt_line(opt_view(*o)),
{
    match o {
        Some(s) => s.as_str(),
        None => {
            proof {
                reveal_strlit("");
            }
            assert(""@ =~= Seq::<char>::empty());
            ""
        },
    }
}

impl Epc {
    #[verifier::type_invariant]
    closed spec fn inv(self) -> bool {
        self@.valid()
    }

    /// Puts a payload together from fields that keep the rules.
    pub(crate) fn new(
        version: Version,
        character_set: CharacterSet,
        identification: Identification,
        bic: Option<String>,
        beneficiary: String,
        iban: String,
        amount: Option<String>,
        purpose: Option<Purpose>,
        remittance: Option<Remittance>,
        information: Option<String>,
    ) -> (e: Epc)
        requires
            (EpcView {
                service_tag: ServiceTag::Bcd,
                version,
                character_set,
                identification,
                bic: opt_view(bic),
                beneficiary: beneficiary@,
                iban: iban@,
                amount: opt_view(amount),
                purpose: opt_view(purpose),
                remittance: opt_view(remittance),
                information: opt_view(information),
            }).valid(),
        ensures
            e@ == (EpcView {
                service_tag: ServiceTag::Bcd,
                version,
                character_set,
                identification,
                bic: opt_view(bic),
                beneficiary: beneficiary@,
                iban: iban@,
                amount: opt_view(amount),
                purpose: opt_view(purpose),
                remittance: opt_view(remittance),
                information: opt_view(information),
            }),
    {
        Epc {
            service_tag: ServiceTag::Bcd,
            version,
            character_set,
            identification,
            bic,
            beneficiary,
            iban,
            amount,
            purpose,
            remittance,
            information,
        }
    }

    /// Writes the payload as the text that goes into the QR code: twelve
    /// lines in fixed order, joined by line feeds, with no line feed after
    /// the last.
    pub fn to_string(&self) -> (r: String)
        ensures
            r@ == self@.text(),
            self@.valid(),
    {
        proof {
            use_type_invariant(self);
            lemma_text_unfolded(self@);
            reveal_strlit("");
        }
        assert(""@ =~= Seq::<char>::empty());
        let mut out = self.service_tag.to_string();
        append_line(&mut out, self.version.as_str());
        append_line(&mut out, self.character_set.as_str());
        append_line(&mut out, self.identification.as_str());
        append_line(&mut out, opt_str(&self.bic));
        append_line(&mut out, self.beneficiary.as_str());
        append_line(&mut out, self.iban.as_str());
        append_line(&mut out, opt_str(&self.amount));
        match &self.purpose {
            Some(p) => {
                let code = p.to_string();
                append_line(&mut out, code.as_str());
            },
            None => append_line(&mut out, ""),
        }
        match &self.remittance {
            Some(Remittance::Reference(r)) => {
                append_line(&mut out, r.as_str());
                append_line(&mut out, "");
            },
            Some(Remittance::Text(t)) => {
                append_line(&mut out, "");
                append_line(&mut out, t.as_str());
            },
            None => {
                append_line(&mut out, "");
                append_line(&mut out, "");
            },
        }
        append_line(&mut out, opt_str(&self.information));
        out
    }
}

/// The characters that end a line.
pub open spec fn is_line_feed() -> spec_fn(char) -> bool {
    |c: char| c == '\n'
}

/// The number of line feeds in a text.
pub open spec fn line_feeds(s: Seq<char>) -> nat {
    s.filter(is_line_feed()).len()
}

/// A text that holds no line feed, and so stays on one line.
pub open spec fn single_line(s: Seq<char>) -> bool {
    forall|i: int| 0 <= i < s.len() ==> s[i] != '\n'
}

/// A text on one line holds no line feed.
pub proof fn lemma_single_line_no_feeds(s: Seq<char>)
    requires
        single_line(s),
    ensures
        line_feeds(s) == 0,
    decreases s.len(),
{
    reveal(Seq::filter);
    if s.len() > 0 {
        lemma_single_line_no_feeds(s.drop_last());
    }
}

/// Lines that hold no line feed, joined, hold one line feed less than
/// there are lines.
pub proof fn lemma_join_line_feeds(lines: Seq<Seq<char>>)
    requires
        lines.len() > 0,
        forall|i: int| 0 <= i < lines.len() ==> single_line(#[trigger] lines[i]),
    ensures
        line_feeds(join_lines(lines)) == lines.len() - 1,
    decreases lines.len(),
{
    if lines.len() == 1 {
        lemma_single_line_no_feeds(lines[0]);
    } else {
        let front = lines.drop_last();
        lemma_join_line_feeds(front);
        lemma_single_line_no_feeds(lines.last());
        let feed = seq!['\n'];
        assert(line_feeds(feed) == 1) by {
            reveal(Seq::filter);
            assert(feed.drop_last() =~= Seq::<char>::empty());
            assert(feed.drop_last().filter(is_line_feed()) =~= Seq::<char>::empty());
        }
        Seq::filter_distributes_over_add(join_lines(front), feed, is_line_feed());
        Seq::filter_distributes_over_add(join_lines(front) + feed, lines.last(), is_line_feed());
    }
}

impl EpcView {
    /// The fields that may hold any text hold no line feed: the BIC, the
    /// beneficiary, the remittance text and the information.
    pub open spec fn free_text_on_one_line(self) -> bool {
        &&& single_line(opt_line(self.bic))
        &&& single_line(self.beneficiary)
        &&& single_line(self.text_line())
        &&& single_line(opt_line(self.information))
    }
}

/// Each of a payload's twelve lines stays on one line, provided that the
/// fields of free text hold no line feed: the fixed codes, the IBAN, the
/// amount, the purpose and the structured reference never hold one.
pub proof fn lemma_payload_lines_single(e: EpcView)
    requires
        e.valid(),
        e.free_text_on_one_line(),
    ensures
        e.lines().len() == 12,
        forall|i: int| 0 <= i < 12 ==> single_line(#[trigger] e.lines()[i]),
{
    reveal_strlit("BCD");
    reveal_strlit("001");
    reveal_strlit("002");
    reveal_strlit("1");
    reveal_strlit("SCT");
    reveal_strlit("INST");
    reveal_strlit("BENE");
    let l = e.lines();
    assert(single_line(l[0]));
    assert(single_line(l[1]));
    assert(single_line(l[2]));
    assert(single_line(l[3]));
    assert(single_line(l[4]));
    assert(single_line(l[5]));
    assert(single_line(l[6])) by {
        assert forall|i: int| 0 <= i < e.iban.len() implies e.iban[i] != '\n' by {
            if i >= 2 {
                assert(e.iban[i] == e.iban.skip(2)[i - 2]);
            }
        }
    }
    assert(single_line(l[7]));
    assert(single_line(l[8]));
    assert(single_line(l[9])) by {
        let r = e.reference_line();
        assert forall|i: int| 0 <= i < r.len() implies r[i] != '\n' by {
            if i >= 2 {
                assert(r[i] == r.skip(2)[i - 2]);
            }
        }
    }
    assert(single_line(l[10]));
    assert(single_line(l[11]));
}

/// A payload whose fields of free text hold no line feed is written as
/// exactly twelve lines: its text holds eleven line feeds, one between each
/// two neighbouring fields, whether the optional fields are set or not.
pub proof fn lemma_payload_line_count(e: EpcView)
    requires
        e.valid(),
        e.free_text_on_one_line(),
    ensures
        e.lines().len() == 12,
        line_feeds(e.text()) == 11,
{
    lemma_payload_lines_single(e);
    lemma_join_line_feeds(e.lines());
}

/// A field that is not set leaves its line empty and its place kept: the
/// BIC at line 5, the amount at line 8, the purpose at line 9, the
/// information at line 12. Of lines 10 and 11 at most one is filled: line
/// 10 by a structured reference, line 11 by remittance text.
pub proof fn lemma_absent_fields_leave_empty_lines(e: EpcView)
    ensures
        e.lines().len() == 12,
        e.bic is None ==> e.lines()[4].len() == 0,
        e.amount is None ==> e.lines()[7].len() == 0,
        e.purpose is None ==> e.lines()[8].len() == 0,
        e.information is None ==> e.lines()[11].len() == 0,
        e.remittance is None ==> e.lines()[9].len() == 0 && e.lines()[10].len() == 0,
        e.remittance matches Some(RemittanceView::Reference(r)) ==> e.lines()[9] == r
            && e.lines()[10].len() == 0,
        e.remittance matches Some(RemittanceView::Text(t)) ==> e.lines()[9].len() == 0
            && e.lines()[10] == t,
{
}

/// The length of the first line of a text: the place of its first line
/// feed, or its length where it holds none.
pub open spec fn first_line_len(s: Seq<char>) -> int
    decreases s.len(),
{
    if s.len() == 0 || s[0] == '\n' {
        0
    } else {
        1 + first_line_len(s.drop_first())
    }
}

/// Line `k` of a text, counted from 0 and cut at line feeds; empty where
/// the text has fewer lines.
pub open spec fn line_at(s: Seq<char>, k: nat) -> Seq<char>
    decreases k,
{
    let end = first_line_len(s);
    if k == 0 {
        s.take(end)
    } else if end < s.len() {
        line_at(s.skip(end + 1), (k - 1) as nat)
    } else {
        Seq::empty()
    }
}

/// The first line of a text that starts with a line without line feeds,
/// followed by anything that does not continue it, is that line.
pub proof fn lemma_first_line_len(head: Seq<char>, rest: Seq<char>)
    requires
        single_line(head),
        rest.len() == 0 || rest[0] == '\n',
    ensures
        first_line_len(head + rest) == head.len(),
    decreases head.len(),
{
    if head.len() == 0 {
        assert(head + rest =~= rest);
    } else {
        assert((head + rest).drop_first() =~= head.drop_first() + rest);
        lemma_first_line_len(head.drop_first(), rest);
    }
}

/// Two or more lines joined are the first line, a line feed and the other
/// lines joined.
pub proof fn lemma_join_first(lines: Seq<Seq<char>>)
    requires
        lines.len() >= 2,
    ensures
        join_lines(lines) == lines[0] + seq!['\n'] + join_lines(lines.drop_first()),
    decreases lines.len(),
{
    if lines.len() == 2 {
        assert(join_lines(lines.drop_last()) == lines[0]);
        assert(join_lines(lines.drop_first()) == lines[1]);
    } else {
        let front = lines.drop_last();
        lemma_join_first(front);
        assert(front.drop_first() =~= lines.drop_first().drop_last());
        assert(join_lines(lines) =~= lines[0] + seq!['\n'] + join_lines(lines.drop_first()));
    }
}

/// Joining loses nothing: where no line holds a line feed, line `k` of
/// the joined text is the line that was put in at place `k`.
pub proof fn lemma_line_at_joined(lines: Seq<Seq<char>>, k: nat)
    requires
        k < lines.len(),
        forall|i: int| 0 <= i < lines.len() ==> single_line(#[trigger] lines[i]),
    ensures
        line_at(join_lines(lines), k) == lines[k as int],
    decreases k,
{
    let text = join_lines(lines);
    if lines.len() == 1 {
        lemma_first_line_len(lines[0], Seq::empty());
        assert(lines[0] + Seq::<char>::empty() =~= lines[0]);
        assert(text.take(text.len() as int) =~= text);
    } else {
        let rest = lines.drop_first();
        lemma_join_first(lines);
        let tail = seq!['\n'] + join_lines(rest);
        assert(text =~= lines[0] + tail);
        lemma_first_line_len(lines[0], tail);
        if k == 0 {
            assert(text.take(lines[0].len() as int) =~= lines[0]);
        } else {
            assert(text.skip(lines[0].len() as int + 1) =~= join_lines(rest));
            assert forall|i: int| 0 <= i < rest.len() implies single_line(#[trigger] rest[i]) by {
                assert(rest[i] == lines[i + 1]);
            }
            lemma_line_at_joined(rest, (k - 1) as nat);
        }
    }
}

/// Every field of a payload can be read back from its text by its line
/// number, provided that the fields of free text hold no line feed.
pub proof fn lemma_payload_line_at(e: EpcView, k: nat)
    requires
        e.valid(),
        e.free_text_on_one_line(),
        k < 12,
    ensures
        line_at(e.text(), k) == e.lines()[k as int],
{
    lemma_payload_lines_single(e);
    lemma_line_at_joined(e.lines(), k);
}

} // verus!
