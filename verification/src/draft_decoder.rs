//! Reading a staged collection draft back.
//!
//! Each reading function is stated as the fields taken from the front of the bytes, with
//! the message of the first field that does not fit.

use std::collections::HashSet;

use vstd::prelude::*;
use vstd::string::*;
use vstd::utf8::*;

use crate::codec::{reads, Parsed};
use crate::collection::{
    estimate, estimate_error, page_seen, CollectionDraft, DraftView, MAX_COLLECTION_NAME_BYTES,
    MAX_PREVIEW_MEMBERS, MAX_PREVIEW_MISSING_TITLES, MAX_RULE_TITLES, MAX_TITLE_BYTES,
};
use crate::draft_codec::{draft_magic, image_view, DRAFT_VERSION, LEGACY_DRAFT_VERSION};
use crate::error::{failure, OperationError};
use crate::model::{
    contains_title, first_occurrences, member_views, thumbnail_error, title_texts, valid_title,
    BudgetView, CollectionBudget, CollectionRemovalPolicy, CollectionRule,
    CollectionSelectionPreview, HistoryPolicy, HistoryView, ImagePolicy, ImageView,
    InclusionReason, MemberView, ModelError, PageId, PageTitle, PreviewView, ReasonView,
    ResolvedCollectionMember, RuleView, ThumbnailPolicy, ThumbnailView, TitleSelection,
    UnixTimestamp, WikiId,
};
use crate::protocol::MAX_COLLECTION_DRAFT_BYTES;
use crate::wire::{
    signed32, signed64, split, split_number, to_signed32, to_signed64, to_vec, utf8_text, Reader,
};

verus! {

/// A decoded draft and the image policy that came with it.
#[derive(Debug, PartialEq, Eq)]
pub struct DecodedCollectionDraft {
    pub draft: CollectionDraft,
    pub image_policy: Option<ImagePolicy>,
}

/// The next number of `width` bytes.
pub open spec fn draft_number(bytes: Seq<u8>, width: nat) -> Parsed<nat> {
    match split_number(bytes, width) {
        Some((value, rest)) => Ok((value, rest)),
        None => Err("truncated collection draft"@),
    }
}

/// The next count, under a ceiling.
pub open spec fn next_count(bytes: Seq<u8>, maximum: usize) -> Parsed<nat> {
    match draft_number(bytes, 4) {
        Err(message) => Err(message),
        Ok((count, rest)) => if count > maximum {
            Err("collection draft count exceeds its bound"@)
        } else {
            Ok((count, rest))
        },
    }
}

/// The next text field, under a ceiling.
pub open spec fn next_draft_text(bytes: Seq<u8>, maximum: usize) -> Parsed<Seq<char>> {
    match draft_number(bytes, 4) {
        Err(message) => Err(message),
        Ok((length, rest)) => if length > maximum {
            Err("collection draft text field is too large"@)
        } else {
            match split(rest, length) {
                None => Err("truncated collection draft text"@),
                Some((field, rest)) => if valid_utf8(field) {
                    Ok((decode_utf8(field), rest))
                } else {
                    Err("collection draft text is not UTF-8"@)
                },
            }
        },
    }
}

/// The next title.
pub open spec fn next_title(bytes: Seq<u8>) -> Parsed<Seq<char>> {
    match next_draft_text(bytes, MAX_TITLE_BYTES) {
        Err(message) => Err(message),
        Ok((title, rest)) => if valid_title(title) {
            Ok((title, rest))
        } else {
            Err(ModelError::BlankTitle.text())
        },
    }
}

/// The next optional number.
pub open spec fn next_optional_number(bytes: Seq<u8>) -> Parsed<Option<u64>> {
    match draft_number(bytes, 1) {
        Err(message) => Err(message),
        Ok((tag, rest)) => if tag == 0 {
            Ok((None, rest))
        } else if tag == 1 {
            match draft_number(rest, 8) {
                Err(message) => Err(message),
                Ok((value, rest)) => Ok((Some(value as u64), rest)),
            }
        } else {
            Err("invalid optional integer encoding"@)
        },
    }
}

/// The next `count` titles after those in `before`.
pub open spec fn next_titles(bytes: Seq<u8>, count: nat, before: Seq<Seq<char>>) -> Parsed<
    Seq<Seq<char>>,
>
    decreases count,
{
    if count == 0 {
        Ok((before, bytes))
    } else {
        match next_title(bytes) {
            Err(message) => Err(message),
            Ok((title, rest)) => next_titles(rest, (count - 1) as nat, before.push(title)),
        }
    }
}

/// The next `count` titles after those in `before`, none of them twice.
pub open spec fn next_missing(bytes: Seq<u8>, count: nat, before: Seq<Seq<char>>) -> Parsed<
    Seq<Seq<char>>,
>
    decreases count,
{
    if count == 0 {
        Ok((before, bytes))
    } else {
        match next_title(bytes) {
            Err(message) => Err(message),
            Ok((title, rest)) => if before.contains(title) {
                Err("collection preview contains a duplicate missing title"@)
            } else {
                next_missing(rest, (count - 1) as nat, before.push(title))
            },
        }
    }
}

/// The next title selection.
pub open spec fn next_selection(bytes: Seq<u8>) -> Parsed<Seq<Seq<char>>> {
    match next_count(bytes, MAX_RULE_TITLES) {
        Err(message) => Err(message),
        Ok((count, rest)) => if count == 0 {
            Err("collection title rule is empty"@)
        } else {
            match next_titles(rest, count, Seq::empty()) {
                Err(message) => Err(message),
                Ok((titles, rest)) => if first_occurrences(titles).len() != count {
                    Err("collection title rule contains duplicates"@)
                } else {
                    Ok((first_occurrences(titles), rest))
                },
            }
        },
    }
}

/// The next rule.
pub open spec fn next_rule(bytes: Seq<u8>) -> Parsed<RuleView> {
    match draft_number(bytes, 1) {
        Err(message) => Err(message),
        Ok((tag, rest)) => if tag == 1 || tag == 2 {
            match next_selection(rest) {
                Err(message) => Err(message),
                Ok((titles, rest)) => Ok(
                    (
                        if tag == 1 {
                            RuleView::ExplicitTitles(titles)
                        } else {
                            RuleView::TitleList(titles)
                        },
                        rest,
                    ),
                ),
            }
        } else if tag == 3 {
            match next_title(rest) {
                Err(message) => Err(message),
                Ok((title, rest)) => match draft_number(rest, 2) {
                    Err(message) => Err(message),
                    Ok((depth, rest)) => Ok(
                        (RuleView::Category { title, recursion_depth: depth as u16 }, rest),
                    ),
                },
            }
        } else {
            Err("invalid collection rule kind"@)
        },
    }
}

/// The next inclusion reason.
pub open spec fn next_reason(bytes: Seq<u8>) -> Parsed<ReasonView> {
    match draft_number(bytes, 1) {
        Err(message) => Err(message),
        Ok((tag, rest)) => if 1 <= tag <= 3 {
            match next_title(rest) {
                Err(message) => Err(message),
                Ok((title, rest)) => if tag == 1 {
                    Ok((ReasonView::ExplicitTitle(title), rest))
                } else if tag == 2 {
                    Ok((ReasonView::TitleList(title), rest))
                } else {
                    match draft_number(rest, 2) {
                        Err(message) => Err(message),
                        Ok((depth, rest)) => Ok(
                            (ReasonView::Category { category: title, depth: depth as u16 }, rest),
                        ),
                    }
                },
            }
        } else {
            Err("invalid collection inclusion reason"@)
        },
    }
}

/// The next member; its page must not be among those in `before`.
pub open spec fn next_member(bytes: Seq<u8>, before: Seq<MemberView>) -> Parsed<MemberView> {
    match draft_number(bytes, 8) {
        Err(message) => Err(message),
        Ok((page_id, rest)) => if page_id == 0 {
            Err(ModelError::ZeroIdentifier.text())
        } else if page_seen(before, before.len() as int, page_id as u64) {
            Err("collection preview contains a duplicate page ID"@)
        } else {
            match draft_number(rest, 4) {
                Err(message) => Err(message),
                Ok((namespace, rest)) => match next_title(rest) {
                    Err(message) => Err(message),
                    Ok((title, rest)) => match next_reason(rest) {
                        Err(message) => Err(message),
                        Ok((reason, rest)) => Ok(
                            (
                                MemberView {
                                    page_id: page_id as u64,
                                    namespace: signed32(namespace as u32),
                                    title,
                                    reason,
                                },
                                rest,
                            ),
                        ),
                    },
                },
            }
        },
    }
}

/// The next `count` members after those in `before`.
pub open spec fn next_members(bytes: Seq<u8>, count: nat, before: Seq<MemberView>) -> Parsed<
    Seq<MemberView>,
>
    decreases count,
{
    if count == 0 {
        Ok((before, bytes))
    } else {
        match next_member(bytes, before) {
            Err(message) => Err(message),
            Ok((member, rest)) => next_members(rest, (count - 1) as nat, before.push(member)),
        }
    }
}

/// The next history policy.
pub open spec fn next_history(bytes: Seq<u8>) -> Parsed<HistoryView> {
    match draft_number(bytes, 1) {
        Err(message) => Err(message),
        Ok((tag, rest)) => if tag == 1 {
            Ok((HistoryView::CurrentAndFuture, rest))
        } else if tag == 2 {
            match draft_number(rest, 4) {
                Err(message) => Err(message),
                Ok((count, rest)) => if count == 0 {
                    Err(ModelError::ZeroLimit.text())
                } else {
                    Ok((HistoryView::LastN(count as u32), rest))
                },
            }
        } else if tag == 3 {
            match draft_number(rest, 8) {
                Err(message) => Err(message),
                Ok((bits, rest)) => Ok((HistoryView::Since(signed64(bits as u64)), rest)),
            }
        } else if tag == 4 {
            Ok((HistoryView::Complete, rest))
        } else {
            Err("invalid collection history policy"@)
        },
    }
}

/// The next page and byte limits; a limit of zero is refused once both were read.
pub open spec fn next_budget(bytes: Seq<u8>) -> Parsed<BudgetView> {
    match next_optional_number(bytes) {
        Err(message) => Err(message),
        Ok((maximum_pages, rest)) => match next_optional_number(rest) {
            Err(message) => Err(message),
            Ok((maximum_bytes, rest)) => if maximum_pages == Some(0u64) || maximum_bytes == Some(
                0u64,
            ) {
                Err(ModelError::ZeroLimit.text())
            } else {
                Ok((BudgetView { maximum_pages, maximum_bytes }, rest))
            },
        },
    }
}

/// The next removal policy.
pub open spec fn next_removal(bytes: Seq<u8>) -> Parsed<CollectionRemovalPolicy> {
    match draft_number(bytes, 1) {
        Err(message) => Err(message),
        Ok((tag, rest)) => if tag == 1 {
            Ok((CollectionRemovalPolicy::StopTrackingRetainHistory, rest))
        } else if tag == 2 {
            Ok((CollectionRemovalPolicy::KeepTracking, rest))
        } else {
            Err("invalid collection removal policy"@)
        },
    }
}

/// The next image policy.
pub open spec fn next_image(bytes: Seq<u8>) -> Parsed<ImageView> {
    match draft_number(bytes, 1) {
        Err(message) => Err(message),
        Ok((tag, rest)) => if tag == 0 {
            Ok((ImageView::Off, rest))
        } else if tag == 1 {
            match draft_number(rest, 4) {
                Err(message) => Err(message),
                Ok((edge, rest)) => match draft_number(rest, 4) {
                    Err(message) => Err(message),
                    Ok((images, rest)) => match draft_number(rest, 8) {
                        Err(message) => Err(message),
                        Ok((limit, rest)) => match thumbnail_error(
                            edge as u32,
                            images as u32,
                            limit as u64,
                        ) {
                            Some(error) => Err(error.text()),
                            None => Ok(
                                (
                                    ImageView::Thumbnails(
                                        ThumbnailView {
                                            maximum_edge_pixels: edge as u32,
                                            maximum_images_per_revision: images as u32,
                                            maximum_bytes_per_image: limit as u64,
                                        },
                                    ),
                                    rest,
                                ),
                            ),
                        },
                    },
                },
            }
        } else {
            Err("invalid collection image policy"@)
        },
    }
}

/// Version, source, name and rule at the front of a draft.
pub struct HeadView {
    pub version: u16,
    pub wiki_id: u64,
    pub name: Seq<char>,
    pub rule: RuleView,
}

pub open spec fn next_head(bytes: Seq<u8>) -> Parsed<HeadView> {
    match split(bytes, 4) {
        None => Err("truncated collection draft"@),
        Some((magic, rest)) => if magic != draft_magic() {
            Err("invalid collection draft magic"@)
        } else {
            match draft_number(rest, 2) {
                Err(message) => Err(message),
                Ok((version, rest)) => if version != LEGACY_DRAFT_VERSION && version
                    != DRAFT_VERSION {
                    Err("unsupported collection draft encoding version"@)
                } else {
                    match draft_number(rest, 8) {
                        Err(message) => Err(message),
                        Ok((wiki_id, rest)) => if wiki_id == 0 {
                            Err(ModelError::ZeroIdentifier.text())
                        } else {
                            match next_draft_text(rest, MAX_COLLECTION_NAME_BYTES) {
                                Err(message) => Err(message),
                                Ok((name, rest)) => match next_rule(rest) {
                                    Err(message) => Err(message),
                                    Ok((rule, rest)) => Ok(
                                        (
                                            HeadView {
                                                version: version as u16,
                                                wiki_id: wiki_id as u64,
                                                name,
                                                rule,
                                            },
                                            rest,
                                        ),
                                    ),
                                },
                            }
                        },
                    }
                },
            }
        },
    }
}

/// Members and missing titles.
pub open spec fn next_scope(bytes: Seq<u8>) -> Parsed<(Seq<MemberView>, Seq<Seq<char>>)> {
    match next_count(bytes, MAX_PREVIEW_MEMBERS) {
        Err(message) => Err(message),
        Ok((count, rest)) => match next_members(rest, count, Seq::empty()) {
            Err(message) => Err(message),
            Ok((members, rest)) => match next_count(rest, MAX_PREVIEW_MISSING_TITLES) {
                Err(message) => Err(message),
                Ok((count, rest)) => match next_missing(rest, count, Seq::empty()) {
                    Err(message) => Err(message),
                    Ok((missing, rest)) => Ok(((members, missing), rest)),
                },
            },
        },
    }
}

/// Prediction, batches, history, budget and removal policy of a draft.
pub struct PoliciesView {
    pub predicted_canonical_bytes: Option<u64>,
    pub category_batches: usize,
    pub history_policy: HistoryView,
    pub budget: BudgetView,
    pub removal_policy: CollectionRemovalPolicy,
}

pub open spec fn next_policies(bytes: Seq<u8>) -> Parsed<PoliciesView> {
    match next_optional_number(bytes) {
        Err(message) => Err(message),
        Ok((predicted_canonical_bytes, rest)) => match draft_number(rest, 8) {
            Err(message) => Err(message),
            Ok((batches, rest)) => if batches > usize::MAX {
                Err("category batch count is too large"@)
            } else {
                match next_history(rest) {
                    Err(message) => Err(message),
                    Ok((history_policy, rest)) => match next_budget(rest) {
                        Err(message) => Err(message),
                        Ok((budget, rest)) => match next_removal(rest) {
                            Err(message) => Err(message),
                            Ok((removal_policy, rest)) => Ok(
                                (
                                    PoliciesView {
                                        predicted_canonical_bytes,
                                        category_batches: batches as usize,
                                        history_policy,
                                        budget,
                                        removal_policy,
                                    },
                                    rest,
                                ),
                            ),
                        },
                    },
                }
            },
        },
    }
}

/// The image policy that a draft version carries.
pub open spec fn next_image_tail(bytes: Seq<u8>, version: u16) -> Parsed<Option<ImageView>> {
    if version == DRAFT_VERSION {
        match next_image(bytes) {
            Err(message) => Err(message),
            Ok((policy, rest)) => Ok((Some(policy), rest)),
        }
    } else {
        Ok((None, bytes))
    }
}

/// A draft put together from its parts.
pub open spec fn assembled_draft(
    head: HeadView,
    members: Seq<MemberView>,
    missing_titles: Seq<Seq<char>>,
    policies: PoliciesView,
) -> DraftView {
    DraftView {
        wiki_id: head.wiki_id,
        name: head.name,
        preview: PreviewView {
            rule: head.rule,
            members,
            missing_titles,
            predicted_canonical_bytes: policies.predicted_canonical_bytes,
            category_batches: policies.category_batches,
        },
        history_policy: policies.history_policy,
        budget: policies.budget,
        removal_policy: policies.removal_policy,
    }
}

/// The draft in a byte sequence, before its contents are judged.
pub open spec fn draft_structure(bytes: Seq<u8>) -> Result<
    (DraftView, Option<ImageView>),
    Seq<char>,
> {
    if bytes.len() > MAX_COLLECTION_DRAFT_BYTES {
        Err("staged collection draft is too large"@)
    } else {
        match next_head(bytes) {
            Err(message) => Err(message),
            Ok((head, rest)) => match next_scope(rest) {
                Err(message) => Err(message),
                Ok(((members, missing), rest)) => match next_policies(rest) {
                    Err(message) => Err(message),
                    Ok((policies, rest)) => match next_image_tail(rest, head.version) {
                        Err(message) => Err(message),
                        Ok((image, rest)) => if rest.len() == 0 {
                            Ok((assembled_draft(head, members, missing, policies), image))
                        } else {
                            Err("collection draft has trailing bytes"@)
                        },
                    },
                },
            },
        }
    }
}

/// The draft that a byte sequence holds, or the first reason that it holds none.
pub open spec fn draft_decoding(bytes: Seq<u8>) -> Result<
    (DraftView, Option<ImageView>),
    Seq<char>,
> {
    match draft_structure(bytes) {
        Err(message) => Err(message),
        Ok((draft, image)) => match estimate_error(draft) {
            Some(message) => Err(message),
            None => Ok((draft, image)),
        },
    }
}

/// Reads the fields of a draft.
pub struct DraftDecoder<'a> {
    reader: Reader<'a>,
}

impl<'a> View for DraftDecoder<'a> {
    type V = Seq<u8>;

    closed spec fn view(&self) -> Seq<u8> {
        self.reader@
    }
}

impl<'a> DraftDecoder<'a> {
    pub fn new(bytes: &'a [u8]) -> (decoder: Self)
        ensures
            decoder@ == bytes@,
    {
        DraftDecoder { reader: Reader::new(bytes) }
    }

    pub fn magic(&mut self) -> (r: Result<(), &'static str>)
        ensures
            match r {
                Ok(()) => split(old(self)@, 4) == Some((draft_magic(), final(self)@)),
                Err(message) => match split(old(self)@, 4) {
                    None => message@ == "truncated collection draft"@,
                    Some((magic, rest)) => magic != draft_magic() && message@
                        == "invalid collection draft magic"@,
                },
            },
    {
        match self.reader.take(4) {
            None => Err("truncated collection draft"),
            Some(head) => {
                if head[0] == 0x57 && head[1] == 0x4b && head[2] == 0x43 && head[3] == 0x44 {
                    proof {
                        assert(head@ =~= draft_magic());
                    }
                    Ok(())
                } else {
                    Err("invalid collection draft magic")
                }
            },
        }
    }

    pub fn u8(&mut self) -> (r: Result<u8, &'static str>)
        ensures
            match r {
                Ok(value) => draft_number(old(self)@, 1) == Ok::<(nat, Seq<u8>), Seq<char>>(
                    (value as nat, final(self)@),
                ),
                Err(message) => draft_number(old(self)@, 1) == Err::<(nat, Seq<u8>), Seq<char>>(
                    message@,
                ),
            },
    {
        match self.reader.u8() {
            Some(value) => Ok(value),
            None => Err("truncated collection draft"),
        }
    }

    pub fn u16(&mut self) -> (r: Result<u16, &'static str>)
        ensures
            match r {
                Ok(value) => draft_number(old(self)@, 2) == Ok::<(nat, Seq<u8>), Seq<char>>(
                    (value as nat, final(self)@),
                ),
                Err(message) => draft_number(old(self)@, 2) == Err::<(nat, Seq<u8>), Seq<char>>(
                    message@,
                ),
            },
    {
        match self.reader.u16() {
            Some(value) => Ok(value),
            None => Err("truncated collection draft"),
        }
    }

    pub fn u32(&mut self) -> (r: Result<u32, &'static str>)
        ensures
            match r {
                Ok(value) => draft_number(old(self)@, 4) == Ok::<(nat, Seq<u8>), Seq<char>>(
                    (value as nat, final(self)@),
                ),
                Err(message) => draft_number(old(self)@, 4) == Err::<(nat, Seq<u8>), Seq<char>>(
                    message@,
                ),
            },
    {
        match self.reader.u32() {
            Some(value) => Ok(value),
            None => Err("truncated collection draft"),
        }
    }

    pub fn u64(&mut self) -> (r: Result<u64, &'static str>)
        ensures
            match r {
                Ok(value) => draft_number(old(self)@, 8) == Ok::<(nat, Seq<u8>), Seq<char>>(
                    (value as nat, final(self)@),
                ),
                Err(message) => draft_number(old(self)@, 8) == Err::<(nat, Seq<u8>), Seq<char>>(
                    message@,
                ),
            },
    {
        match self.reader.u64() {
            Some(value) => Ok(value),
            None => Err("truncated collection draft"),
        }
    }

    pub fn count(&mut self, maximum: usize) -> (r: Result<usize, &'static str>)
        ensures
            match r {
                Ok(count) => next_count(old(self)@, maximum) == Ok::<(nat, Seq<u8>), Seq<char>>(
                    (count as nat, final(self)@),
                ) && count <= maximum,
                Err(message) => next_count(old(self)@, maximum) == Err::<
                    (nat, Seq<u8>),
                    Seq<char>,
                >(message@),
            },
    {
        let count: u32 = self.u32()?;
        if count as usize > maximum {
            Err("collection draft count exceeds its bound")
        } else {
            Ok(count as usize)
        }
    }

    pub fn string(&mut self, maximum: usize) -> (r: Result<String, &'static str>)
        ensures
            reads(r, final(self)@, next_draft_text(old(self)@, maximum)),
    {
        let length: u32 = self.u32()?;
        if length as usize > maximum {
            return Err("collection draft text field is too large");
        }
        match self.reader.take(length as usize) {
            None => Err("truncated collection draft text"),
            Some(field) => match utf8_text(to_vec(field)) {
                Ok(text) => Ok(text),
                Err(_) => Err("collection draft text is not UTF-8"),
            },
        }
    }

    pub fn title(&mut self) -> (r: Result<PageTitle, &'static str>)
        ensures
            reads(r, final(self)@, next_title(old(self)@)),
    {
        let text = self.string(MAX_TITLE_BYTES)?;
        match PageTitle::new(text.as_str()) {
            Ok(title) => Ok(title),
            Err(error) => Err(error.message()),
        }
    }

    pub fn optional_u64(&mut self) -> (r: Result<Option<u64>, &'static str>)
        ensures
            match r {
                Ok(value) => next_optional_number(old(self)@) == Ok::<
                    (Option<u64>, Seq<u8>),
                    Seq<char>,
                >((value, final(self)@)),
                Err(message) => next_optional_number(old(self)@) == Err::<
                    (Option<u64>, Seq<u8>),
                    Seq<char>,
                >(message@),
            },
    {
        let tag: u8 = self.u8()?;
        if tag == 0 {
            Ok(None)
        } else if tag == 1 {
            let value: u64 = self.u64()?;
            Ok(Some(value))
        } else {
            Err("invalid optional integer encoding")
        }
    }

    pub fn finish(&self) -> (r: Result<(), &'static str>)
        ensures
            match r {
                Ok(()) => self@.len() == 0,
                Err(message) => self@.len() != 0 && message@
                    == "collection draft has trailing bytes"@,
            },
    {
        if self.reader.is_empty() {
            Ok(())
        } else {
            Err("collection draft has trailing bytes")
        }
    }
}

fn decode_selection(decoder: &mut DraftDecoder<'_>) -> (r: Result<TitleSelection, &'static str>)
    ensures
        reads(r, final(decoder)@, next_selection(old(decoder)@)),
{
    let count: usize = decoder.count(MAX_RULE_TITLES)?;
    if count == 0 {
        return Err("collection title rule is empty");
    }
    let ghost start = decoder@;
    let mut titles: Vec<PageTitle> = Vec::new();
    let mut i: usize = 0;
    proof {
        assert(title_texts(titles@) =~= Seq::empty());
    }
    while i < count
        invariant
            i <= count,
            next_count(old(decoder)@, MAX_RULE_TITLES) == Ok::<(nat, Seq<u8>), Seq<char>>(
                (count as nat, start),
            ),
            count > 0,
            titles@.len() == i,
            next_titles(start, count as nat, Seq::empty()) == next_titles(
                decoder@,
                (count - i) as nat,
                title_texts(titles@),
            ),
        decreases count - i,
    {
        let ghost before = titles@;
        let title = decoder.title()?;
        titles.push(title);
        proof {
            assert(title_texts(titles@) =~= title_texts(before).push(title@));
        }
        i = i + 1;
    }
    match TitleSelection::new(titles) {
        Err(error) => Err(error.message()),
        Ok(selection) => {
            if selection.len() != count {
                Err("collection title rule contains duplicates")
            } else {
                Ok(selection)
            }
        },
    }
}

/// Reads a rule.
pub fn decode_rule(decoder: &mut DraftDecoder<'_>) -> (r: Result<CollectionRule, &'static str>)
    ensures
        reads(r, final(decoder)@, next_rule(old(decoder)@)),
{
    let tag: u8 = decoder.u8()?;
    if tag == 1 {
        let titles = decode_selection(decoder)?;
        Ok(CollectionRule::ExplicitTitles(titles))
    } else if tag == 2 {
        let titles = decode_selection(decoder)?;
        Ok(CollectionRule::TitleList(titles))
    } else if tag == 3 {
        let title = decoder.title()?;
        let recursion_depth: u16 = decoder.u16()?;
        Ok(CollectionRule::Category { title, recursion_depth })
    } else {
        Err("invalid collection rule kind")
    }
}

/// Reads an inclusion reason.
pub fn decode_inclusion_reason(decoder: &mut DraftDecoder<'_>) -> (r: Result<
    InclusionReason,
    &'static str,
>)
    ensures
        reads(r, final(decoder)@, next_reason(old(decoder)@)),
{
    let tag: u8 = decoder.u8()?;
    if tag == 1 {
        let title = decoder.title()?;
        Ok(InclusionReason::ExplicitTitle(title))
    } else if tag == 2 {
        let title = decoder.title()?;
        Ok(InclusionReason::TitleList(title))
    } else if tag == 3 {
        let category = decoder.title()?;
        let depth: u16 = decoder.u16()?;
        Ok(InclusionReason::Category { category, depth })
    } else {
        Err("invalid collection inclusion reason")
    }
}

proof fn lemma_page_seen_push(members: Seq<MemberView>, member: MemberView, id: u64)
    ensures
        page_seen(members.push(member), members.len() as int + 1, id) <==> page_seen(
            members,
            members.len() as int,
            id,
        ) || member.page_id == id,
{
    let longer = members.push(member);
    if page_seen(members, members.len() as int, id) {
        let k = choose|k: int|
            0 <= k < members.len() && (#[trigger] members[k]).page_id == id;
        assert(longer[k].page_id == id);
    }
    if member.page_id == id {
        assert(longer[members.len() as int].page_id == id);
    }
    if page_seen(longer, members.len() as int + 1, id) {
        let k = choose|k: int| 0 <= k < members.len() + 1 && (#[trigger] longer[k]).page_id == id;
        if k < members.len() {
            assert(members[k].page_id == id);
        }
    }
}

fn decode_members(decoder: &mut DraftDecoder<'_>, count: usize) -> (r: Result<
    Vec<ResolvedCollectionMember>,
    &'static str,
>)
    ensures
        match r {
            Ok(members) => next_members(old(decoder)@, count as nat, Seq::empty()) == Ok::<
                (Seq<MemberView>, Seq<u8>),
                Seq<char>,
            >((member_views(members@), final(decoder)@)),
            Err(message) => next_members(old(decoder)@, count as nat, Seq::empty()) == Err::<
                (Seq<MemberView>, Seq<u8>),
                Seq<char>,
            >(message@),
        },
{
    broadcast use vstd::std_specs::hash::group_hash_axioms;

    let mut members: Vec<ResolvedCollectionMember> = Vec::new();
    let mut seen: HashSet<u64> = HashSet::new();
    let mut i: usize = 0;
    proof {
        assert(member_views(members@) =~= Seq::empty());
    }
    while i < count
        invariant
            i <= count,
            members@.len() == i,
            forall|id: u64| #[trigger]
                seen@.contains(id) <==> page_seen(member_views(members@), i as int, id),
            next_members(old(decoder)@, count as nat, Seq::empty()) == next_members(
                decoder@,
                (count - i) as nat,
                member_views(members@),
            ),
        decreases count - i,
    {
        let ghost before = member_views(members@);
        let page_id = match PageId::new(decoder.u64()?) {
            Ok(page_id) => page_id,
            Err(error) => return Err(error.message()),
        };
        let raw: u64 = page_id.get();
        if !seen.insert(raw) {
            return Err("collection preview contains a duplicate page ID");
        }
        let namespace: i32 = to_signed32(decoder.u32()?);
        let title = decoder.title()?;
        let inclusion_reason = decode_inclusion_reason(decoder)?;
        let member = ResolvedCollectionMember { page_id, namespace, title, inclusion_reason };
        let ghost view = member@;
        members.push(member);
        proof {
            assert(member_views(members@) =~= before.push(view));
            assert forall|id: u64| #[trigger] seen@.contains(id) <==> page_seen(
                member_views(members@),
                i + 1,
                id,
            ) by {
                lemma_page_seen_push(before, view, id);
            }
        }
        i = i + 1;
    }
    Ok(members)
}

fn decode_missing(decoder: &mut DraftDecoder<'_>, count: usize) -> (r: Result<
    Vec<PageTitle>,
    &'static str,
>)
    ensures
        match r {
            Ok(titles) => next_missing(old(decoder)@, count as nat, Seq::empty()) == Ok::<
                (Seq<Seq<char>>, Seq<u8>),
                Seq<char>,
            >((title_texts(titles@), final(decoder)@)),
            Err(message) => next_missing(old(decoder)@, count as nat, Seq::empty()) == Err::<
                (Seq<Seq<char>>, Seq<u8>),
                Seq<char>,
            >(message@),
        },
{
    let mut titles: Vec<PageTitle> = Vec::new();
    let mut i: usize = 0;
    proof {
        assert(title_texts(titles@) =~= Seq::empty());
    }
    while i < count
        invariant
            i <= count,
            titles@.len() == i,
            next_missing(old(decoder)@, count as nat, Seq::empty()) == next_missing(
                decoder@,
                (count - i) as nat,
                title_texts(titles@),
            ),
        decreases count - i,
    {
        let ghost before = titles@;
        let title = decoder.title()?;
        if contains_title(&titles, &title) {
            return Err("collection preview contains a duplicate missing title");
        }
        titles.push(title);
        proof {
            assert(title_texts(titles@) =~= title_texts(before).push(title@));
        }
        i = i + 1;
    }
    Ok(titles)
}

/// Reads a history policy.
pub fn decode_history_policy(decoder: &mut DraftDecoder<'_>) -> (r: Result<
    HistoryPolicy,
    &'static str,
>)
    ensures
        reads(r, final(decoder)@, next_history(old(decoder)@)),
{
    let tag: u8 = decoder.u8()?;
    if tag == 1 {
        Ok(HistoryPolicy::CurrentAndFuture)
    } else if tag == 2 {
        match HistoryPolicy::last_n(decoder.u32()?) {
            Ok(policy) => Ok(policy),
            Err(error) => Err(error.message()),
        }
    } else if tag == 3 {
        let seconds: i64 = to_signed64(decoder.u64()?);
        Ok(HistoryPolicy::Since(UnixTimestamp::from_seconds(seconds)))
    } else if tag == 4 {
        Ok(HistoryPolicy::Complete)
    } else {
        Err("invalid collection history policy")
    }
}

fn decode_budget(decoder: &mut DraftDecoder<'_>) -> (r: Result<CollectionBudget, &'static str>)
    ensures
        reads(r, final(decoder)@, next_budget(old(decoder)@)),
{
    let maximum_pages: Option<u64> = decoder.optional_u64()?;
    let maximum_bytes: Option<u64> = decoder.optional_u64()?;
    let mut budget = CollectionBudget::unlimited();
    if let Some(pages) = maximum_pages {
        budget =
        match budget.with_maximum_pages(pages) {
            Ok(budget) => budget,
            Err(error) => return Err(error.message()),
        };
    }
    if let Some(limit) = maximum_bytes {
        budget =
        match budget.with_maximum_bytes(limit) {
            Ok(budget) => budget,
            Err(error) => return Err(error.message()),
        };
    }
    Ok(budget)
}

fn decode_removal_policy(decoder: &mut DraftDecoder<'_>) -> (r: Result<
    CollectionRemovalPolicy,
    &'static str,
>)
    ensures
        match r {
            Ok(policy) => next_removal(old(decoder)@) == Ok::<
                (CollectionRemovalPolicy, Seq<u8>),
                Seq<char>,
            >((policy, final(decoder)@)),
            Err(message) => next_removal(old(decoder)@) == Err::<
                (CollectionRemovalPolicy, Seq<u8>),
                Seq<char>,
            >(message@),
        },
{
    let tag: u8 = decoder.u8()?;
    if tag == 1 {
        Ok(CollectionRemovalPolicy::StopTrackingRetainHistory)
    } else if tag == 2 {
        Ok(CollectionRemovalPolicy::KeepTracking)
    } else {
        Err("invalid collection removal policy")
    }
}

/// Reads an image policy.
pub fn decode_image_policy(decoder: &mut DraftDecoder<'_>) -> (r: Result<
    ImagePolicy,
    &'static str,
>)
    ensures
        reads(r, final(decoder)@, next_image(old(decoder)@)),
{
    let tag: u8 = decoder.u8()?;
    if tag == 0 {
        Ok(ImagePolicy::Off)
    } else if tag == 1 {
        let edge: u32 = decoder.u32()?;
        let images: u32 = decoder.u32()?;
        let limit: u64 = decoder.u64()?;
        match ThumbnailPolicy::new(edge, images, limit) {
            Ok(policy) => Ok(ImagePolicy::Thumbnails(policy)),
            Err(error) => Err(error.message()),
        }
    } else {
        Err("invalid collection image policy")
    }
}

struct DecodedHead {
    version: u16,
    wiki_id: WikiId,
    name: String,
    rule: CollectionRule,
}

impl View for DecodedHead {
    type V = HeadView;

    closed spec fn view(&self) -> HeadView {
        HeadView {
            version: self.version,
            wiki_id: self.wiki_id@,
            name: self.name@,
            rule: self.rule@,
        }
    }
}

fn decode_head(decoder: &mut DraftDecoder<'_>) -> (r: Result<DecodedHead, &'static str>)
    ensures
        reads(r, final(decoder)@, next_head(old(decoder)@)),
{
    decoder.magic()?;
    let version: u16 = decoder.u16()?;
    if version != LEGACY_DRAFT_VERSION && version != DRAFT_VERSION {
        return Err("unsupported collection draft encoding version");
    }
    let wiki_id = match WikiId::new(decoder.u64()?) {
        Ok(wiki_id) => wiki_id,
        Err(error) => return Err(error.message()),
    };
    let name = decoder.string(MAX_COLLECTION_NAME_BYTES)?;
    let rule = decode_rule(decoder)?;
    Ok(DecodedHead { version, wiki_id, name, rule })
}

struct DecodedPolicies {
    predicted_canonical_bytes: Option<u64>,
    category_batches: usize,
    history_policy: HistoryPolicy,
    budget: CollectionBudget,
    removal_policy: CollectionRemovalPolicy,
}

impl View for DecodedPolicies {
    type V = PoliciesView;

    closed spec fn view(&self) -> PoliciesView {
        PoliciesView {
            predicted_canonical_bytes: self.predicted_canonical_bytes,
            category_batches: self.category_batches,
            history_policy: self.history_policy@,
            budget: self.budget@,
            removal_policy: self.removal_policy,
        }
    }
}

fn decode_policies(decoder: &mut DraftDecoder<'_>) -> (r: Result<DecodedPolicies, &'static str>)
    ensures
        reads(r, final(decoder)@, next_policies(old(decoder)@)),
{
    let predicted_canonical_bytes: Option<u64> = decoder.optional_u64()?;
    let batches: u64 = decoder.u64()?;
    if batches > usize::MAX as u64 {
        return Err("category batch count is too large");
    }
    let history_policy = decode_history_policy(decoder)?;
    let budget = decode_budget(decoder)?;
    let removal_policy = decode_removal_policy(decoder)?;
    Ok(
        DecodedPolicies {
            predicted_canonical_bytes,
            category_batches: batches as usize,
            history_policy,
            budget,
            removal_policy,
        },
    )
}

fn decode_structure(bytes: &[u8]) -> (r: Result<DecodedCollectionDraft, &'static str>)
    ensures
        match r {
            Ok(decoded) => draft_structure(bytes@) == Ok::<
                (DraftView, Option<ImageView>),
                Seq<char>,
            >((decoded.draft@, image_view(decoded.image_policy))),
            Err(message) => draft_structure(bytes@) == Err::<
                (DraftView, Option<ImageView>),
                Seq<char>,
            >(message@),
        },
{
    if bytes.len() > MAX_COLLECTION_DRAFT_BYTES {
        return Err("staged collection draft is too large");
    }
    let mut decoder = DraftDecoder::new(bytes);
    let head = decode_head(&mut decoder)?;
    let member_count: usize = decoder.count(MAX_PREVIEW_MEMBERS)?;
    let members = decode_members(&mut decoder, member_count)?;
    let missing_count: usize = decoder.count(MAX_PREVIEW_MISSING_TITLES)?;
    let missing_titles = decode_missing(&mut decoder, missing_count)?;
    let policies = decode_policies(&mut decoder)?;
    let image_policy: Option<ImagePolicy> = if head.version == DRAFT_VERSION {
        Some(decode_image_policy(&mut decoder)?)
    } else {
        None
    };
    decoder.finish()?;
    Ok(
        DecodedCollectionDraft {
            draft: CollectionDraft {
                wiki_id: head.wiki_id,
                name: head.name,
                preview: CollectionSelectionPreview {
                    rule: head.rule,
                    members,
                    missing_titles,
                    predicted_canonical_bytes: policies.predicted_canonical_bytes,
                    category_batches: policies.category_batches,
                },
                history_policy: policies.history_policy,
                budget: policies.budget,
                removal_policy: policies.removal_policy,
            },
            image_policy,
        },
    )
}

/// Decodes and validates a staged draft of either version.
pub fn decode_collection_draft_version(bytes: &[u8]) -> (r: Result<
    DecodedCollectionDraft,
    OperationError,
>)
    ensures
        match r {
            Ok(decoded) => draft_decoding(bytes@) == Ok::<
                (DraftView, Option<ImageView>),
                Seq<char>,
            >((decoded.draft@, image_view(decoded.image_policy))),
            Err(error) => draft_decoding(bytes@) is Err && error@ == failure(
                draft_decoding(bytes@)->Err_0,
            ),
        },
{
    match decode_structure(bytes) {
        Err(message) => Err(OperationError::failed(message)),
        Ok(decoded) => {
            estimate(&decoded.draft)?;
            Ok(decoded)
        },
    }
}

/// The draft in bytes that carry no image policy.
pub open spec fn plain_draft_decoding(bytes: Seq<u8>) -> Result<DraftView, Seq<char>> {
    match draft_decoding(bytes) {
        Err(message) => Err(message),
        Ok((draft, Some(policy))) => Err(
            "image-aware collection drafts require draft-v2 administration"@,
        ),
        Ok((draft, None)) => Ok(draft),
    }
}

/// Decodes and validates a staged draft without an image policy.
pub fn decode_collection_draft(bytes: &[u8]) -> (r: Result<CollectionDraft, OperationError>)
    ensures
        match r {
            Ok(draft) => plain_draft_decoding(bytes@) == Ok::<DraftView, Seq<char>>(draft@),
            Err(error) => plain_draft_decoding(bytes@) is Err && error@ == failure(
                plain_draft_decoding(bytes@)->Err_0,
            ),
        },
{
    let decoded = decode_collection_draft_version(bytes)?;
    if decoded.image_policy.is_some() {
        Err(
            OperationError::failed("image-aware collection drafts require draft-v2 administration"),
        )
    } else {
        Ok(decoded.draft)
    }
}

} // verus!
