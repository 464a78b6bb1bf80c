//! Message entities, and how their UTF-16 offsets are resolved to byte
//! ranges of the message text.

use std::ops::Range;
use std::str::Chars;
use vstd::prelude::*;
use vstd::std_specs::iter::IteratorSpec;
use vstd::string::StringSliceAdditionalSpecFns;
use vstd::utf8::{
    decode_utf8, encode_utf8, encode_utf8_decode_utf8, encode_utf8_valid_utf8, is_ascii_chars,
    is_char_boundary,
};
use crate::resolve::{
    lemma_ordered_by_neighbours, lemma_overshoot, lemma_resolve_count, lemma_resolve_ordered,
    lemma_resolve_positions, lemma_seek, lemma_seek_exact, on_boundary, ordered, overshoot,
    resolve, resolve_from, seek,
};
use crate::types::user::User;
use crate::units::{
    lemma_ascii_lengths, lemma_boundary_in_prefix, lemma_encoded_subrange,
    lemma_prefix_is_char_boundary, lemma_prefix_monotonic, lemma_prefix_step,
    lemma_utf16_len_le_utf8_len, utf16_len, utf8_len,
};

verus! {

/// One special entity in a text message: a hashtag, a link, a stretch of
/// bold text. `offset` and `length` count UTF-16 code units.
#[derive(Debug, Clone)]
pub struct MessageEntity {
    pub entity_type: MessageEntityType,
    pub offset: u32,
    pub length: u32,
    pub url: Option<String>,
    pub user: Option<User>,
    pub language: Option<String>,
    pub custom_emoji_id: Option<String>,
}

/// Collects the fields of a [`MessageEntity`].
pub struct MessageEntityBuilder {
    entity_type: MessageEntityType,
    offset: u32,
    length: u32,
    url: Option<String>,
    user: Option<User>,
    language: Option<String>,
    custom_emoji_id: Option<String>,
}

impl MessageEntityBuilder {
    /// The value that [`build`](Self::build) hands out at this point.
    pub closed spec fn built(self) -> MessageEntity {
        MessageEntity {
            entity_type: self.entity_type,
            offset: self.offset,
            length: self.length,
            url: self.url,
            user: self.user,
            language: self.language,
            custom_emoji_id: self.custom_emoji_id,
        }
    }

    /// Starts with the fields that every [`MessageEntity`] has; the others are left out.
    pub fn new(entity_type: MessageEntityType, offset: u32, length: u32) -> (builder: Self)
        ensures
            builder.built().entity_type == entity_type,
            builder.built().offset == offset,
            builder.built().length == length,
            builder.built().url is None,
            builder.built().user is None,
            builder.built().language is None,
            builder.built().custom_emoji_id is None,
    {
        Self {
            entity_type,
            offset,
            length,
            url: None,
            user: None,
            language: None,
            custom_emoji_id: None,
        }
    }

    pub fn url(self, url: &str) -> (builder: Self)
        ensures
            builder.built().url matches Some(set) && set@ == url@,
            builder.built() == (MessageEntity { url: builder.built().url, ..self.built() }),
    {
        Self { url: Some(url.to_owned()), ..self }
    }

    pub fn user(self, user: User) -> (builder: Self)
        ensures
            builder.built() == (MessageEntity { user: Some(user), ..self.built() }),
    {
        Self { user: Some(user), ..self }
    }

    pub fn language(self, language: &str) -> (builder: Self)
        ensures
            builder.built().language matches Some(set) && set@ == language@,
            builder.built() == (MessageEntity {
                language: builder.built().language,
                ..self.built()
            }),
    {
        Self { language: Some(language.to_owned()), ..self }
    }

    pub fn custom_emoji_id(self, custom_emoji_id: &str) -> (builder: Self)
        ensures
            builder.built().custom_emoji_id matches Some(set) && set@ == custom_emoji_id@,
            builder.built() == (MessageEntity {
                custom_emoji_id: builder.built().custom_emoji_id,
                ..self.built()
            }),
    {
        Self { custom_emoji_id: Some(custom_emoji_id.to_owned()), ..self }
    }

    pub fn build(self) -> (built: MessageEntity)
        ensures
            built == self.built(),
    {
        MessageEntity {
            entity_type: self.entity_type,
            offset: self.offset,
            length: self.length,
            url: self.url,
            user: self.user,
            language: self.language,
            custom_emoji_id: self.custom_emoji_id,
        }
    }
}

/// The kinds of entity.
#[derive(Debug, Copy, Clone, PartialEq, Eq, Structural)]
pub enum MessageEntityType {
    Mention,
    Hashtag,
    Cashtag,
    BotCommand,
    Url,
    Email,
    PhoneNumber,
    Bold,
    Italic,
    Underline,
    Strikethrough,
    Spoiler,
    Code,
    Pre,
    TextLink,
    TextMention,
    CustomEmoji,
}

/// What a resolved entity says: the text it belongs to, its kind, and the
/// byte offsets in the UTF-8 encoding of the text between which it lies.
pub struct EntitySpan {
    pub text: Seq<char>,
    pub kind: MessageEntityType,
    pub start: nat,
    pub end: nat,
}

impl EntitySpan {
    /// The scalar values that the span covers.
    pub open spec fn covered(self) -> Seq<char> {
        decode_utf8(encode_utf8(self.text).subrange(self.start as int, self.end as int))
    }
}

/// An entity resolved against its text: the kind, and the byte range of
/// the text that the entity covers. Both ends of the range lie on
/// character boundaries of the text, the start not after the end.
#[derive(Debug, PartialEq)]
pub struct MessageEntityRef<'a> {
    message: &'a str,
    range: Range<usize>,
    entity_type: &'a MessageEntityType,
}

impl<'a> View for MessageEntityRef<'a> {
    type V = EntitySpan;

    closed spec fn view(&self) -> EntitySpan {
        EntitySpan {
            text: self.message@,
            kind: *self.entity_type,
            start: self.range.start as nat,
            end: self.range.end as nat,
        }
    }
}

impl<'a> MessageEntityRef<'a> {
    #[verifier::type_invariant]
    spec fn well_formed(self) -> bool {
        &&& self.range.start <= self.range.end <= self.message.spec_bytes().len()
        &&& is_char_boundary(self.message.spec_bytes(), self.range.start as int)
        &&& is_char_boundary(self.message.spec_bytes(), self.range.end as int)
    }

    /// The same entity over another range of its text.
    fn copy(&self, range: Range<usize>) -> (other: Self)
        requires
            range.start <= range.end <= self.message.spec_bytes().len(),
            is_char_boundary(self.message.spec_bytes(), range.start as int),
            is_char_boundary(self.message.spec_bytes(), range.end as int),
        ensures
            other@ == (EntitySpan { start: range.start as nat, end: range.end as nat, ..self@ }),
    {
        Self { message: self.message, range, entity_type: self.entity_type }
    }

    /// The whole text that the entity belongs to.
    pub fn message(&self) -> (text: &'a str)
        ensures
            text@ == self@.text,
    {
        self.message
    }

    /// The byte range of the text that the entity covers.
    pub fn range(&self) -> (range: Range<usize>)
        ensures
            range.start == self@.start,
            range.end == self@.end,
    {
        self.range.start..self.range.end
    }

    /// The kind of the entity.
    pub fn entity_type(&self) -> (kind: &'a MessageEntityType)
        ensures
            *kind == self@.kind,
    {
        self.entity_type
    }

    /// The part of the text that the entity covers.
    pub fn as_str(&self) -> (covered: &'a str)
        ensures
            covered@ == self@.covered(),
    {
        proof {
            use_type_invariant(self);
            encode_utf8_valid_utf8(self.message@);
            lemma_boundary_in_prefix(
                self.message.spec_bytes(),
                self.range.start as int,
                self.range.end as int,
            );
        }
        let (head, _) = self.message.split_at(self.range.end);
        let (_, covered) = head.split_at(self.range.start);
        proof {
            let bytes = self.message.spec_bytes();
            assert(covered.spec_bytes() =~= bytes.subrange(
                self.range.start as int,
                self.range.end as int,
            ));
            encode_utf8_decode_utf8(covered@);
        }
        covered
    }
}

/// A cursor over the scalar values of a text that knows how many UTF-8
/// bytes and how many UTF-16 code units lie before the value it handed
/// out last.
struct EntityCharIter<'a> {
    chars: Chars<'a>,
    utf8_offset: usize,
    utf16_offset: usize,
    current: Option<char>,
    text: Ghost<Seq<char>>,
    index: Ghost<int>,
}

impl<'a> EntityCharIter<'a> {
    /// `index` is the position of `current`, the offsets are the counts
    /// of bytes and code units before that position.
    spec fn well_formed(self) -> bool {
        &&& 0 <= self.index@ <= self.text@.len()
        &&& self.utf8_offset == utf8_len(self.text@.take(self.index@))
        &&& self.utf16_offset == utf16_len(self.text@.take(self.index@))
        &&& utf8_len(self.text@) <= usize::MAX
        &&& self.current matches Some(c) ==> self.index@ < self.text@.len() && c
            == self.text@[self.index@]
    }

    /// What the underlying iterator has not handed out yet.
    spec fn unread(self) -> Seq<char> {
        self.text@.skip(self.index@ + if self.current is Some { 1int } else { 0int })
    }

    fn new(text: &'a str) -> (it: Self)
        ensures
            it.well_formed(),
            it.chars.remaining() == it.unread(),
            it.text@ == text@,
            it.index@ == 0,
            it.current is None,
    {
        let bytes = text.as_bytes();
        proof {
            vstd::slice::axiom_spec_len(bytes);
            assert(text@.take(0) =~= Seq::<char>::empty());
            assert(text@.skip(0) =~= text@);
        }
        Self {
            chars: text.chars(),
            utf8_offset: 0,
            utf16_offset: 0,
            current: None,
            text: Ghost(text@),
            index: Ghost(0),
        }
    }

    /// Steps over the value handed out last and hands out the next one.
    fn next(&mut self) -> (item: Option<char>)
        requires
            old(self).well_formed(),
            old(self).chars.remaining() == old(self).unread(),
        ensures
            final(self).well_formed(),
            final(self).chars.remaining() == final(self).unread(),
            final(self).text@ == old(self).text@,
            final(self).index@ == old(self).index@ + if old(self).current is Some {
                1int
            } else {
                0int
            },
            final(self).current == item,
            item is Some <==> final(self).index@ < final(self).text@.len(),
    {
        if let Some(current) = self.current {
            proof {
                lemma_prefix_step(self.text@, self.index@);
                lemma_prefix_monotonic(self.text@, self.index@ + 1, self.text@.len() as int);
                assert(self.text@.take(self.text@.len() as int) =~= self.text@);
                lemma_utf16_len_le_utf8_len(self.text@.take(self.index@ + 1));
            }
            self.utf8_offset += current.len_utf8();
            self.utf16_offset += current.len_utf16();
            proof {
                self.index@ = self.index@ + 1;
            }
        }
        let item = self.chars.next();
        self.current = item;
        item
    }
}

/// The annotations that resolving reads off the entities: of each
/// its offset and its length.
pub open spec fn annotations(entities: Seq<MessageEntity>) -> Seq<(nat, nat)> {
    Seq::new(entities.len(), |i: int| (entities[i].offset as nat, entities[i].length as nat))
}

/// The entity of kind `kind` that covers the scalar values of `text`
/// from position `span.0` up to position `span.1`.
pub open spec fn span_of(text: Seq<char>, kind: MessageEntityType, span: (int, int)) -> EntitySpan {
    EntitySpan { text, kind, start: utf8_len(text.take(span.0)), end: utf8_len(text.take(span.1)) }
}

/// The entities resolved against the text: the spans that [`resolve`]
/// gives for their offsets and lengths, each with the kind of its
/// entity and measured in bytes.
pub open spec fn resolved_spans(text: Seq<char>, entities: Seq<MessageEntity>) -> Seq<EntitySpan> {
    Seq::new(
        resolve(text, annotations(entities)).len(),
        |i: int| span_of(text, entities[i].entity_type, resolve(text, annotations(entities))[i]),
    )
}

/// What a sequence of resolved entities says, one by one.
pub open spec fn views<'a>(refs: Seq<MessageEntityRef<'a>>) -> Seq<EntitySpan> {
    refs.map_values(|r: MessageEntityRef<'a>| r@)
}

/// Resolves the entities of a message against its text, in one pass over
/// the text.
///
/// The entities are expected in ascending order and without overlap.
/// The result is defined for every input all the same: an entity of
/// length zero gives an empty range, one that reaches beyond the text
/// ends with the text, and the first entity that starts beyond the text
/// ends the result.
pub fn parse_entities<'a>(text: &'a str, entities: &'a [MessageEntity]) -> (res: Vec<
    MessageEntityRef<'a>,
>)
    ensures
        views(res@) == resolved_spans(text@, entities@),
{
    let mut res: Vec<MessageEntityRef<'a>> = Vec::with_capacity(entities.len());
    let mut chars = EntityCharIter::new(text);
    let mut current = chars.next();
    let mut k: usize = 0;
    let ghost anns = annotations(entities@);
    let ghost mut done: Seq<(int, int)> = Seq::empty();
    proof {
        assert(anns.skip(0) =~= anns);
    }
    while k < entities.len()
        invariant
            chars.well_formed(),
            chars.chars.remaining() == chars.unread(),
            chars.text@ == text@,
            current == chars.current,
            current is Some <==> chars.index@ < text@.len(),
            anns == annotations(entities@),
            k <= entities.len(),
            res@.len() == k,
            done.len() == k,
            resolve(text@, anns) == done + resolve_from(text@, chars.index@, anns.skip(k as int)),
            forall|i: int|
                0 <= i < k ==> (#[trigger] res@[i])@ == span_of(
                    text@,
                    entities@[i].entity_type,
                    done[i],
                ),
        decreases entities.len() - k,
    {
        let entity = &entities[k];
        let offset = entity.offset as usize;
        let length = entity.length as usize;
        let ghost from = chars.index@;
        proof {
            assert(anns.skip(k as int)[0] == anns[k as int]);
            assert(anns.skip(k as int).drop_first() =~= anns.skip(k + 1));
        }
        while current.is_some() && chars.utf16_offset < offset
            invariant
                chars.well_formed(),
                chars.chars.remaining() == chars.unread(),
                chars.text@ == text@,
                current == chars.current,
                current is Some <==> chars.index@ < text@.len(),
                from <= chars.index@,
                seek(text@, from, offset as nat) == seek(text@, chars.index@, offset as nat),
            decreases text@.len() - chars.index@,
        {
            current = chars.next();
        }
        if chars.utf16_offset < offset {
            proof {
                assert(resolve_from(text@, from, anns.skip(k as int)) =~= Seq::empty());
                assert(done + Seq::<(int, int)>::empty() =~= done);
                assert(views(res@) =~= resolved_spans(text@, entities@));
            }
            return res;
        }
        let start = chars.utf8_offset;
        let ghost first = chars.index@;
        proof {
            lemma_prefix_is_char_boundary(text@, first);
        }
        let found = MessageEntityRef {
            message: text,
            range: start..start,
            entity_type: &entity.entity_type,
        };
        while current.is_some() && chars.utf16_offset - offset < length
            invariant
                chars.well_formed(),
                chars.chars.remaining() == chars.unread(),
                chars.text@ == text@,
                current == chars.current,
                current is Some <==> chars.index@ < text@.len(),
                first <= chars.index@,
                chars.utf16_offset >= offset,
                start == utf8_len(text@.take(first)),
                seek(text@, first, (offset + length) as nat) == seek(
                    text@,
                    chars.index@,
                    (offset + length) as nat,
                ),
            decreases text@.len() - chars.index@,
        {
            proof {
                lemma_prefix_step(text@, chars.index@);
            }
            current = chars.next();
        }
        let end = chars.utf8_offset;
        proof {
            let last = chars.index@;
            lemma_prefix_monotonic(text@, first, last);
            lemma_prefix_is_char_boundary(text@, first);
            lemma_prefix_is_char_boundary(text@, last);
            assert(resolve_from(text@, from, anns.skip(k as int)) =~= seq![(first, last)]
                + resolve_from(text@, last, anns.skip(k + 1)));
            assert(done + (seq![(first, last)] + resolve_from(text@, last, anns.skip(k + 1)))
                =~= done.push((first, last)) + resolve_from(text@, last, anns.skip(k + 1)));
            done = done.push((first, last));
        }
        res.push(found.copy(start..end));
        k += 1;
    }
    proof {
        assert(resolve_from(text@, chars.index@, anns.skip(k as int)) =~= Seq::empty());
        assert(done + Seq::<(int, int)>::empty() =~= done);
        assert(views(res@) =~= resolved_spans(text@, entities@));
    }
    res
}

/// Whether the entities come in ascending order and without overlap, as
/// [`parse_entities`] expects them.
pub fn in_order(entities: &[MessageEntity]) -> (ordered: bool)
    ensures
        ordered == crate::resolve::ordered(annotations(entities@)),
{
    let ghost anns = annotations(entities@);
    let n = entities.len();
    if n == 0 {
        return true;
    }
    let mut i: usize = 0;
    while i < n - 1
        invariant
            n == entities@.len(),
            anns == annotations(entities@),
            i <= n - 1,
            forall|k: int| 0 <= k < i ==> (#[trigger] anns[k]).0 + anns[k].1 <= anns[k + 1].0,
        decreases n - i,
    {
        let end = entities[i].offset as u64 + entities[i].length as u64;
        if end > entities[i + 1].offset as u64 {
            proof {
                assert(anns[i as int].0 + anns[i as int].1 > anns[i + 1].0);
            }
            return false;
        }
        i += 1;
    }
    proof {
        lemma_ordered_by_neighbours(anns);
    }
    true
}

/// Every entity is resolved, in the order given and each with its own
/// kind, exactly when no entity starts beyond the end of the text.
pub proof fn lemma_one_span_per_entity(text: Seq<char>, entities: Seq<MessageEntity>)
    ensures
        resolved_spans(text, entities).len() <= entities.len(),
        resolved_spans(text, entities).len() == entities.len() <==> forall|i: int|
            0 <= i < entities.len() ==> (#[trigger] entities[i]).offset <= utf16_len(text),
        forall|i: int|
            0 <= i < resolved_spans(text, entities).len() ==> (#[trigger] resolved_spans(
                text,
                entities,
            )[i]).kind == entities[i].entity_type,
{
    let anns = annotations(entities);
    lemma_resolve_count(text, 0, anns);
    let n = resolve(text, anns).len() as int;
    if n == entities.len() {
        assert forall|i: int| 0 <= i < entities.len() implies (#[trigger] entities[i]).offset
            <= utf16_len(text) by {
            assert(anns[i].0 <= utf16_len(text));
        }
    } else {
        assert(anns[n].0 > utf16_len(text));
        assert(entities[n].offset > utf16_len(text));
    }
}

/// Every resolved range holds whole scalar values: it starts and ends on
/// character boundaries of the text, the start not after the end, and
/// covers the scalar values between two positions of the text.
pub proof fn lemma_spans_hold_whole_scalars(text: Seq<char>, entities: Seq<MessageEntity>, i: int)
    requires
        0 <= i < resolved_spans(text, entities).len(),
    ensures
        ({
            let span = resolved_spans(text, entities)[i];
            let (first, last) = resolve(text, annotations(entities))[i];
            &&& 0 <= first <= last <= text.len()
            &&& span.start <= span.end <= utf8_len(text)
            &&& is_char_boundary(encode_utf8(text), span.start as int)
            &&& is_char_boundary(encode_utf8(text), span.end as int)
            &&& span.covered() == text.subrange(first, last)
        }),
{
    let (first, last) = resolve(text, annotations(entities))[i];
    lemma_resolve_positions(text, 0, annotations(entities));
    lemma_prefix_is_char_boundary(text, first);
    lemma_prefix_is_char_boundary(text, last);
    lemma_encoded_subrange(text, first, last);
    encode_utf8_decode_utf8(text.subrange(first, last));
}

/// Resolved ranges come in the order of the text and do not overlap.
pub proof fn lemma_spans_in_text_order(
    text: Seq<char>,
    entities: Seq<MessageEntity>,
    i: int,
    j: int,
)
    requires
        0 <= i < j < resolved_spans(text, entities).len(),
    ensures
        resolved_spans(text, entities)[i].end <= resolved_spans(text, entities)[j].start,
{
    let anns = annotations(entities);
    lemma_resolve_positions(text, 0, anns);
    let a = resolve(text, anns)[i];
    let b = resolve(text, anns)[j];
    assert(a.1 <= b.0);
    lemma_prefix_monotonic(text, a.1, b.0);
}

/// Among entities in ascending order and without overlap, one that ends
/// inside the text is resolved, and its range holds as many UTF-16 code
/// units as the entity is long, but for the code units by which its two
/// ends are moved past surrogate pairs that they fall into.
pub proof fn lemma_length_of_range(text: Seq<char>, entities: Seq<MessageEntity>, i: int)
    requires
        ordered(annotations(entities)),
        0 <= i < entities.len(),
        entities[i].offset + entities[i].length <= utf16_len(text),
    ensures
        i < resolved_spans(text, entities).len(),
        utf16_len(resolved_spans(text, entities)[i].covered()) + overshoot(
            text,
            entities[i].offset as nat,
        ) == entities[i].length + overshoot(
            text,
            (entities[i].offset + entities[i].length) as nat,
        ),
{
    let anns = annotations(entities);
    let offset = entities[i].offset as nat;
    let limit = (entities[i].offset + entities[i].length) as nat;
    lemma_resolve_count(text, 0, anns);
    let n = resolve(text, anns).len() as int;
    if n <= i {
        assert(anns[n].0 > utf16_len(text));
        if n < i {
            assert(anns[n].0 + anns[n].1 <= anns[i].0);
        }
        assert(anns[i].0 == offset);
    }
    lemma_seek(text, 0, anns[0].0);
    lemma_resolve_ordered(text, 0, anns);
    assert(anns[i] == (offset, entities[i].length as nat));
    let first = seek(text, 0, offset);
    let last = seek(text, 0, limit);
    assert(resolve(text, anns)[i] == (first, last));
    lemma_spans_hold_whole_scalars(text, entities, i);
    lemma_prefix_monotonic(text, first, last);
}

/// Among entities in ascending order and without overlap, one whose
/// start and end fall between scalar values of the text is resolved to
/// a range that holds exactly as many UTF-16 code units as the entity is
/// long.
pub proof fn lemma_fitting_entity_keeps_length(
    text: Seq<char>,
    entities: Seq<MessageEntity>,
    i: int,
)
    requires
        ordered(annotations(entities)),
        0 <= i < entities.len(),
        on_boundary(text, entities[i].offset as nat),
        on_boundary(text, (entities[i].offset + entities[i].length) as nat),
    ensures
        i < resolved_spans(text, entities).len(),
        utf16_len(resolved_spans(text, entities)[i].covered()) == entities[i].length,
{
    let offset = entities[i].offset as nat;
    let limit = (entities[i].offset + entities[i].length) as nat;
    let last = choose|k: int| 0 <= k <= text.len() && utf16_len(#[trigger] text.take(k)) == limit;
    lemma_prefix_monotonic(text, last, text.len() as int);
    assert(text.take(text.len() as int) =~= text);
    lemma_length_of_range(text, entities, i);
    lemma_overshoot(text, offset);
    lemma_overshoot(text, limit);
}

/// In a text of ASCII characters alone, the byte range of an entity is
/// its range of code units: among entities in ascending order and
/// without overlap, one that ends inside the text starts at the byte
/// `offset` and ends at the byte `offset + length`.
pub proof fn lemma_ascii_text_maps_one_to_one(
    text: Seq<char>,
    entities: Seq<MessageEntity>,
    i: int,
)
    requires
        is_ascii_chars(text),
        ordered(annotations(entities)),
        0 <= i < entities.len(),
        entities[i].offset + entities[i].length <= text.len(),
    ensures
        i < resolved_spans(text, entities).len(),
        resolved_spans(text, entities)[i].start == entities[i].offset,
        resolved_spans(text, entities)[i].end == entities[i].offset + entities[i].length,
{
    let anns = annotations(entities);
    let first = entities[i].offset as int;
    let last = entities[i].offset + entities[i].length;
    assert(is_ascii_chars(text.take(first)));
    assert(is_ascii_chars(text.take(last)));
    lemma_ascii_lengths(text);
    lemma_ascii_lengths(text.take(first));
    lemma_ascii_lengths(text.take(last));
    lemma_length_of_range(text, entities, i);
    lemma_seek(text, 0, anns[0].0);
    lemma_resolve_ordered(text, 0, anns);
    lemma_seek_exact(text, first);
    lemma_seek_exact(text, last);
    assert(anns[i] == (entities[i].offset as nat, entities[i].length as nat));
}

/// Resolving is a function of the text and of the kinds, offsets and
/// lengths of the entities: two results for the same text, and for
/// entities that agree in these, say the same.
pub proof fn lemma_same_input_same_spans<'a, 'b>(
    text: Seq<char>,
    entities: Seq<MessageEntity>,
    others: Seq<MessageEntity>,
    res: Seq<MessageEntityRef<'a>>,
    again: Seq<MessageEntityRef<'b>>,
)
    requires
        entities.len() == others.len(),
        forall|i: int|
            0 <= i < entities.len() ==> (#[trigger] entities[i]).entity_type
                == others[i].entity_type && entities[i].offset == others[i].offset
                && entities[i].length == others[i].length,
        views(res) == resolved_spans(text, entities),
        views(again) == resolved_spans(text, others),
    ensures
        views(res) == views(again),
{
    assert(annotations(entities) =~= annotations(others));
    lemma_resolve_count(text, 0, annotations(entities));
    assert(resolved_spans(text, entities) =~= resolved_spans(text, others));
}

} // verus!
