//! Reading the ticket text that a sender shares, and the export kind it calls for.
use vstd::prelude::*;
use iroh_base::hash::BlobFormat;
use iroh_base::ticket::BlobTicket;
use crate::text::{begins_with, chars_of, text_begins_with, text_of};

verus! {

/// Format of a blob as a ticket names it.
#[derive(Debug, Clone, Copy, PartialEq, Eq, Structural)]
pub enum BlobKind {
    /// A single raw blob.
    Raw,
    /// A sequence of hashes: a collection of blobs.
    HashSeq,
}

/// What a blob ticket carries, as plain values: the provider's node id (32 bytes), its
/// home relay URL, its direct socket addresses (rendered, in the ticket's order), the
/// blob's hash (32 bytes) and the blob's format.
#[derive(Debug, Clone, PartialEq, Eq)]
pub struct TicketFields {
    pub node_id: Vec<u8>,
    pub relay_url: Option<String>,
    pub direct_addresses: Vec<String>,
    pub hash: Vec<u8>,
    pub kind: BlobKind,
}

/// The mathematical content of [`TicketFields`].
pub struct TicketFieldsView {
    pub node_id: Seq<u8>,
    pub relay_url: Option<Seq<char>>,
    pub direct_addresses: Seq<Seq<char>>,
    pub hash: Seq<u8>,
    pub kind: BlobKind,
}

impl View for TicketFields {
    type V = TicketFieldsView;

    open spec fn view(&self) -> TicketFieldsView {
        TicketFieldsView {
            node_id: self.node_id@,
            relay_url: text_of(self.relay_url),
            direct_addresses: self.direct_addresses@.map_values(|a: String| a@),
            hash: self.hash@,
            kind: self.kind,
        }
    }
}

/// Whether `BlobTicket::from_str` accepts the text `s`.
pub uninterp spec fn blob_ticket_accepts(s: Seq<char>) -> bool;

/// What the ticket that `BlobTicket::from_str` reads from the text `s` carries.
pub uninterp spec fn ticket_fields(s: Seq<char>) -> TicketFieldsView;

/// The rendered error of `BlobTicket::from_str` on the text `s`.
pub uninterp spec fn ticket_error_of(s: Seq<char>) -> Seq<char>;

/// The kind prefix every blob ticket's text starts with.
pub open spec fn blob_kind_prefix() -> Seq<char> {
    seq!['b', 'l', 'o', 'b']
}

/// `BlobTicket::from_str` (base32 after the `blob` prefix, then postcard), with the
/// ticket taken apart into plain values and the error rendered by its `Display`.
/// Trusted: it succeeds exactly when the named predicate `blob_ticket_accepts` holds of
/// the text; what it reads is the named `ticket_fields` of the text, and its error text
/// the named `ticket_error_of` of the text; and (as its source strips the `blob` kind
/// prefix first and fails without it) it never succeeds on a text not starting `blob`.
#[verifier::external_body]
fn blob_ticket_fields(s: &str) -> (res: Result<TicketFields, String>)
    ensures
        res is Ok == blob_ticket_accepts(s@),
        !begins_with(s@, blob_kind_prefix()) ==> res is Err,
        res matches Ok(f) ==> f@ == ticket_fields(s@),
        res matches Err(m) ==> m@ == ticket_error_of(s@),
{
    match <BlobTicket as std::str::FromStr>::from_str(s) {
        Ok(t) => {
            let (node, hash, format) = t.into_parts();
            Ok(TicketFields {
                node_id: node.node_id.as_bytes().to_vec(),
                relay_url: node.info.relay_url.map(|u| u.to_string()),
                direct_addresses: node.info.direct_addresses.iter().map(|a| a.to_string()).collect(),
                hash: hash.as_bytes().to_vec(),
                kind: match format { BlobFormat::Raw => BlobKind::Raw, BlobFormat::HashSeq => BlobKind::HashSeq },
            })
        },
        Err(e) => Err(e.to_string()),
    }
}

/// Index of the last `c` in `s`, or -1.
pub open spec fn last_index_of(s: Seq<char>, c: char) -> int
    decreases s.len(),
{
    if s.len() == 0 {
        -1
    } else if s.last() == c {
        s.len() - 1
    } else {
        last_index_of(s.drop_last(), c)
    }
}

/// The ticket proper within a shared text: after an `iroh://` link, the part after its
/// last `|`; otherwise the whole text.
pub open spec fn ticket_part(s: Seq<char>) -> Seq<char> {
    if begins_with(s, "iroh://"@) && last_index_of(s, '|') >= 0 {
        s.subrange(last_index_of(s, '|') + 1, s.len() as int)
    } else {
        s
    }
}

proof fn lemma_last_index_of(s: Seq<char>, c: char, j: int)
    requires
        0 <= j <= s.len(),
        forall|m: int| j <= m < s.len() ==> #[trigger] s[m] != c,
    ensures
        last_index_of(s, c) == last_index_of(s.subrange(0, j), c),
    decreases s.len() - j,
{
    if j == s.len() {
        assert(s.subrange(0, j) =~= s);
    } else {
        let t = s.drop_last();
        assert forall|m: int| j <= m < t.len() implies #[trigger] t[m] != c by {
            assert(t[m] == s[m]);
        }
        lemma_last_index_of(t, c, j);
        assert(t.subrange(0, j) =~= s.subrange(0, j));
    }
}

/// The ticket proper within a shared text (see [`ticket_part`]).
pub fn ticket_text(s: &str) -> (res: &str)
    ensures
        res@ == ticket_part(s@),
{
    if !text_begins_with(s, "iroh://") {
        return s;
    }
    let v = chars_of(s);
    let n = v.len();
    let mut j: usize = n;
    while j > 0 && v[j - 1] != '|'
        invariant
            v@ == s@,
            n == s@.len(),
            j <= n,
            forall|m: int| j <= m < n ==> #[trigger] s@[m] != '|',
        decreases j,
    {
        j = j - 1;
    }
    proof {
        lemma_last_index_of(s@, '|', j as int);
        if j > 0 {
            assert(s@.subrange(0, j as int).last() == '|');
        } else {
            assert(s@.subrange(0, 0) =~= Seq::<char>::empty());
        }
    }
    if j == 0 {
        s
    } else {
        s.substring_char(j, n)
    }
}

/// The error text of a ticket that could not be parsed.
pub fn parse_failure_message(detail: &str) -> (m: String)
    ensures
        m@ == "解析ticket失败: "@ + detail@,
{
    let mut m = String::from_str("解析ticket失败: ");
    m.append(detail);
    m
}

/// Parses a shared ticket text: an `iroh://` link carrying the ticket after its last `|`,
/// or the ticket itself; gives what the ticket carries, or the parse error after the
/// `解析ticket失败: ` prefix.
pub fn parse_ticket(ticket_str: &str) -> (res: Result<TicketFields, String>)
    ensures
        res is Ok == blob_ticket_accepts(ticket_part(ticket_str@)),
        !begins_with(ticket_part(ticket_str@), blob_kind_prefix()) ==> res is Err,
        res matches Ok(f) ==> f@ == ticket_fields(ticket_part(ticket_str@)),
        res matches Err(m) ==> m@ == "解析ticket失败: "@ + ticket_error_of(ticket_part(ticket_str@)),
{
    let part = ticket_text(ticket_str);
    match blob_ticket_fields(part) {
        Ok(f) => Ok(f),
        Err(detail) => Err(parse_failure_message(detail.as_str())),
    }
}

/// How a downloaded blob is written out.
#[derive(Debug, Clone, Copy, PartialEq, Eq, Structural)]
pub enum ExportKind {
    /// The blob's bytes, as one file.
    Blob,
    /// A collection: each member as a file under the target.
    Collection,
}

/// A hash sequence is exported as a collection, a raw blob as one file.
pub fn export_kind_for(kind: BlobKind) -> (e: ExportKind)
    ensures
        e == (if kind == BlobKind::HashSeq {
            ExportKind::Collection
        } else {
            ExportKind::Blob
        }),
{
    match kind {
        BlobKind::HashSeq => ExportKind::Collection,
        BlobKind::Raw => ExportKind::Blob,
    }
}

proof fn lemma_no_bar_after(s: Seq<char>, t: Seq<char>, c: char)
    requires
        forall|m: int| 0 <= m < t.len() ==> #[trigger] t[m] != c,
        s.len() > 0,
        s.last() == c,
    ensures
        last_index_of(s + t, c) == s.len() - 1,
    decreases t.len(),
{
    if t.len() == 0 {
        assert(s + t =~= s);
    } else {
        let u = t.drop_last();
        assert forall|m: int| 0 <= m < u.len() implies #[trigger] u[m] != c by {
            assert(u[m] == t[m]);
        }
        lemma_no_bar_after(s, u, c);
        assert((s + t).drop_last() =~= s + u);
        assert((s + t).last() == t.last());
    }
}

/// A shared `iroh://` link carries its ticket after the last `|`: for a link
/// `iroh://{x}|{t}` where `t` holds no `|`, the ticket read is `t`.
pub proof fn law_link_carries_ticket(x: Seq<char>, t: Seq<char>)
    requires
        forall|m: int| 0 <= m < t.len() ==> #[trigger] t[m] != '|',
    ensures
        ticket_part("iroh://"@ + x + seq!['|'] + t) == t,
{
    let head = "iroh://"@ + x + seq!['|'];
    let s = head + t;
    assert(s.subrange(0, "iroh://"@.len() as int) =~= "iroh://"@);
    lemma_no_bar_after(head, t, '|');
    assert(s.subrange(head.len() as int, s.len() as int) =~= t);
}

/// A text that is not an `iroh://` link is read whole as the ticket.
pub proof fn law_plain_text_is_ticket(s: Seq<char>)
    requires
        !begins_with(s, "iroh://"@),
    ensures
        ticket_part(s) == s,
{
}

/// A link and the plain ticket it carries read the same: for a link `iroh://{x}|{t}`
/// where `t` holds no `|` and is not itself a link, parsing gives the same outcome, the
/// same ticket and the same error as parsing `t`.
pub proof fn law_link_and_plain_ticket_agree(x: Seq<char>, t: Seq<char>)
    requires
        forall|m: int| 0 <= m < t.len() ==> #[trigger] t[m] != '|',
        !begins_with(t, "iroh://"@),
    ensures
        ticket_part("iroh://"@ + x + seq!['|'] + t) == ticket_part(t),
        blob_ticket_accepts(ticket_part("iroh://"@ + x + seq!['|'] + t)) == blob_ticket_accepts(
            ticket_part(t),
        ),
        ticket_fields(ticket_part("iroh://"@ + x + seq!['|'] + t)) == ticket_fields(ticket_part(t)),
        ticket_error_of(ticket_part("iroh://"@ + x + seq!['|'] + t)) == ticket_error_of(
            ticket_part(t),
        ),
{
    law_link_carries_ticket(x, t);
}

proof fn lemma_no_bar_index(s: Seq<char>)
    requires
        forall|m: int| 0 <= m < s.len() ==> #[trigger] s[m] != '|',
    ensures
        last_index_of(s, '|') == -1,
    decreases s.len(),
{
    if s.len() > 0 {
        let t = s.drop_last();
        assert forall|m: int| 0 <= m < t.len() implies #[trigger] t[m] != '|' by {
            assert(t[m] == s[m]);
        }
        lemma_no_bar_index(t);
    }
}

/// An `iroh://` link without any `|` is read whole as the ticket (and then refused, as
/// it does not start with `blob`).
pub proof fn law_link_without_bar_is_whole(s: Seq<char>)
    requires
        begins_with(s, "iroh://"@),
        forall|m: int| 0 <= m < s.len() ==> #[trigger] s[m] != '|',
    ensures
        ticket_part(s) == s,
{
    lemma_no_bar_index(s);
}

} // verus!
