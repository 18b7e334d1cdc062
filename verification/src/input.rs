//! The derivation input model: normalizes a record-type definition's
//! name, field list, visibility and directive annotations into the data
//! consumed by codec synthesis, rejecting invalid definitions with a
//! precise error.

use vstd::prelude::*;
use vstd::string::StringExecFns;

use crate::field::FieldType;
use crate::text::spec_split_commas;
use crate::text::spec_trim;
use crate::text::chars_of;
use crate::text::chars_eq;
use crate::text::string_from_chars;
use crate::text::trim_chars;
use crate::text::lemma_split_commas_single;
use crate::text::lemma_split_commas_head;

verus! {

/// The capability set a derivation narrows to: one of the three exclusive
/// modes, or the default of deriving everything.
#[derive(Clone, Copy, Debug, PartialEq, Eq, Structural)]
pub enum TraitsToDerive {
    FieldOnly,
    SerializeOnly,
    DeserializeOnly,
    All,
}

/// The overall visibility of a record type.
#[derive(Clone, Copy, Debug, PartialEq, Eq, Structural)]
pub enum Visibility {
    Public,
    Crate,
    Inherited,
}

/// One field of a record type: its name and its declared type expression.
/// The type is recorded as declared, not resolved; resolution is deferred
/// to the capability registry at codec-synthesis time.
#[derive(Debug, PartialEq, Eq)]
pub struct FieldDef {
    pub name: String,
    pub ty: FieldType,
}

/// The value shape an annotation carries. Only a single string literal is
/// accepted for the recognized directive key.
#[derive(Debug, PartialEq, Eq)]
pub enum AnnotationValue {
    /// A single string literal.
    Text(String),
    /// An integer literal.
    Integer(u64),
    /// A bare key with no value.
    Flag,
    /// Any other value shape: a grouped list, a non-integer literal.
    Nested,
}

/// One annotation attached to a record-type definition: a key and a
/// value. Keys other than the recognized directive key are ignored.
#[derive(Debug, PartialEq, Eq)]
pub struct Annotation {
    pub key: String,
    pub value: AnnotationValue,
}

/// The shape of a record-type definition. Only a fixed-shape record with
/// named fields can be derived.
#[derive(Debug, PartialEq, Eq)]
pub enum RecordShape {
    /// A fixed-shape record with named fields, in declaration order.
    Record(Vec<FieldDef>),
    /// A tagged-variant definition.
    TaggedVariants,
    /// An untagged overlay definition.
    UntaggedUnion,
}

/// A record-type definition as handed over by the host-language
/// front end: name, visibility, shape and annotations, as plain data.
#[derive(Debug, PartialEq, Eq)]
pub struct RecordDefinition {
    pub name: String,
    pub visibility: Visibility,
    pub shape: RecordShape,
    pub annotations: Vec<Annotation>,
}

/// Why a derivation was rejected. Every error aborts processing of the
/// enclosing definition; each names the offending record type, and the
/// token-level errors carry the exact (trimmed) token.
#[derive(Debug, PartialEq, Eq)]
pub enum DeriveError {
    /// The definition is not a fixed-shape record with named fields.
    UnsupportedShape { record: String },
    /// The recognized directive key carries a value that is not a single
    /// string literal.
    MalformedDirective { record: String },
    /// A directive token is not one of the recognized keywords.
    UnknownDirectiveValue { record: String, token: String },
    /// A second exclusive-mode token was supplied for one record type.
    ConflictingDirectives { record: String, token: String },
}

/// Representing the record type a derivation is for.
#[derive(Debug, PartialEq, Eq)]
pub struct Input {
    /// The record type's name.
    pub name: String,
    /// The capability set to derive.
    pub traits_to_derive: TraitsToDerive,
    /// The fields of the record type, in declaration order.
    pub fields: Vec<FieldDef>,
    /// The record type's overall visibility.
    pub visibility: Visibility,
}

/// Mathematical model of a field definition.
pub struct FieldDefView {
    pub name: Seq<char>,
    pub ty: FieldType,
}

/// Mathematical model of an annotation value.
pub enum AnnotationValueView {
    Text(Seq<char>),
    Integer(u64),
    Flag,
    Nested,
}

/// Mathematical model of an annotation.
pub struct AnnotationView {
    pub key: Seq<char>,
    pub value: AnnotationValueView,
}

/// Mathematical model of a record shape.
pub enum RecordShapeView {
    Record(Seq<FieldDefView>),
    TaggedVariants,
    UntaggedUnion,
}

/// Mathematical model of a record-type definition.
pub struct RecordDefinitionView {
    pub name: Seq<char>,
    pub visibility: Visibility,
    pub shape: RecordShapeView,
    pub annotations: Seq<AnnotationView>,
}

/// Mathematical model of a derivation error.
pub enum DeriveErrorView {
    UnsupportedShape { record: Seq<char> },
    MalformedDirective { record: Seq<char> },
    UnknownDirectiveValue { record: Seq<char>, token: Seq<char> },
    ConflictingDirectives { record: Seq<char>, token: Seq<char> },
}

/// Mathematical model of a derivation input model.
pub struct InputView {
    pub name: Seq<char>,
    pub traits_to_derive: TraitsToDerive,
    pub fields: Seq<FieldDefView>,
    pub visibility: Visibility,
}

impl View for FieldDef {
    type V = FieldDefView;

    open spec fn view(&self) -> FieldDefView {
        FieldDefView { name: self.name@, ty: self.ty }
    }
}

impl View for AnnotationValue {
    type V = AnnotationValueView;

    open spec fn view(&self) -> AnnotationValueView {
        match self {
            AnnotationValue::Text(s) => AnnotationValueView::Text(s@),
            AnnotationValue::Integer(n) => AnnotationValueView::Integer(*n),
            AnnotationValue::Flag => AnnotationValueView::Flag,
            AnnotationValue::Nested => AnnotationValueView::Nested,
        }
    }
}

impl View for Annotation {
    type V = AnnotationView;

    open spec fn view(&self) -> AnnotationView {
        AnnotationView { key: self.key@, value: self.value@ }
    }
}

impl View for RecordShape {
    type V = RecordShapeView;

    open spec fn view(&self) -> RecordShapeView {
        match self {
            RecordShape::Record(fields) => RecordShapeView::Record(
                fields@.map_values(|f: FieldDef| f@),
            ),
            RecordShape::TaggedVariants => RecordShapeView::TaggedVariants,
            RecordShape::UntaggedUnion => RecordShapeView::UntaggedUnion,
        }
    }
}

impl View for RecordDefinition {
    type V = RecordDefinitionView;

    open spec fn view(&self) -> RecordDefinitionView {
        RecordDefinitionView {
            name: self.name@,
            visibility: self.visibility,
            shape: self.shape@,
            annotations: self.annotations@.map_values(|a: Annotation| a@),
        }
    }
}

impl View for DeriveError {
    type V = DeriveErrorView;

    open spec fn view(&self) -> DeriveErrorView {
        match self {
            DeriveError::UnsupportedShape { record } => DeriveErrorView::UnsupportedShape {
                record: record@,
            },
            DeriveError::MalformedDirective { record } => DeriveErrorView::MalformedDirective {
                record: record@,
            },
            DeriveError::UnknownDirectiveValue { record, token } => {
                DeriveErrorView::UnknownDirectiveValue { record: record@, token: token@ }
            },
            DeriveError::ConflictingDirectives { record, token } => {
                DeriveErrorView::ConflictingDirectives { record: record@, token: token@ }
            },
        }
    }
}

impl View for Input {
    type V = InputView;

    open spec fn view(&self) -> InputView {
        InputView {
            name: self.name@,
            traits_to_derive: self.traits_to_derive,
            fields: self.fields@.map_values(|f: FieldDef| f@),
            visibility: self.visibility,
        }
    }
}

/// The single recognized directive key.
pub open spec fn spec_directive_key() -> Seq<char> {
    "arrow2_convert"@
}

/// The exclusive mode a recognized keyword selects, or nothing for an
/// unrecognized token.
pub open spec fn spec_token_mode(t: Seq<char>) -> Option<TraitsToDerive> {
    if t == "field_only"@ {
        Some(TraitsToDerive::FieldOnly)
    } else if t == "serialize_only"@ {
        Some(TraitsToDerive::SerializeOnly)
    } else if t == "deserialize_only"@ {
        Some(TraitsToDerive::DeserializeOnly)
    } else {
        None
    }
}

/// One step of mode resolution: trim the raw token, require it to be a
/// recognized keyword, and require that the mode has not already been
/// narrowed away from the default — a second exclusive-mode token, even
/// an identical one, is a conflict.
pub open spec fn spec_apply_token(
    record: Seq<char>,
    raw: Seq<char>,
    cur: TraitsToDerive,
) -> Result<TraitsToDerive, DeriveErrorView> {
    let t = spec_trim(raw);
    match spec_token_mode(t) {
        Some(m) => if cur != TraitsToDerive::All {
            Err(DeriveErrorView::ConflictingDirectives { record, token: t })
        } else {
            Ok(m)
        },
        None => Err(DeriveErrorView::UnknownDirectiveValue { record, token: t }),
    }
}

/// Mode resolution over a list of raw tokens, applied in order; the first
/// error aborts.
pub open spec fn spec_apply_tokens(
    record: Seq<char>,
    toks: Seq<Seq<char>>,
    cur: TraitsToDerive,
) -> Result<TraitsToDerive, DeriveErrorView>
    decreases toks.len(),
{
    if toks.len() == 0 {
        Ok(cur)
    } else {
        match spec_apply_token(record, toks[0], cur) {
            Ok(m) => spec_apply_tokens(record, toks.drop_first(), m),
            Err(e) => Err(e),
        }
    }
}

/// Mode resolution over one directive value: an empty value has zero
/// tokens and leaves the mode unchanged; otherwise the value is split on
/// commas and each token is applied in order.
pub open spec fn spec_apply_value(
    record: Seq<char>,
    value: Seq<char>,
    cur: TraitsToDerive,
) -> Result<TraitsToDerive, DeriveErrorView> {
    if value.len() == 0 {
        Ok(cur)
    } else {
        spec_apply_tokens(record, spec_split_commas(value), cur)
    }
}

/// Mode resolution over the annotation list, in order. An annotation
/// under the recognized key must carry a single string literal; any other
/// key is ignored entirely.
pub open spec fn spec_scan_annotations(
    record: Seq<char>,
    anns: Seq<AnnotationView>,
    cur: TraitsToDerive,
) -> Result<TraitsToDerive, DeriveErrorView>
    decreases anns.len(),
{
    if anns.len() == 0 {
        Ok(cur)
    } else {
        let a = anns[0];
        if a.key == spec_directive_key() {
            match a.value {
                AnnotationValueView::Text(s) => match spec_apply_value(record, s, cur) {
                    Ok(m) => spec_scan_annotations(record, anns.drop_first(), m),
                    Err(e) => Err(e),
                },
                _ => Err(DeriveErrorView::MalformedDirective { record }),
            }
        } else {
            spec_scan_annotations(record, anns.drop_first(), cur)
        }
    }
}

/// What deriving a record-type definition yields: the normalized model,
/// or the first error. A definition that is not a named-field record is
/// rejected regardless of its annotations; otherwise the fields are kept
/// in declaration order and the mode is resolved from the annotations,
/// defaulting to deriving everything.
pub open spec fn spec_derive(d: RecordDefinitionView) -> Result<InputView, DeriveErrorView> {
    match d.shape {
        RecordShapeView::Record(fields) => match spec_scan_annotations(
            d.name,
            d.annotations,
            TraitsToDerive::All,
        ) {
            Ok(m) => Ok(
                InputView {
                    name: d.name,
                    traits_to_derive: m,
                    fields: fields,
                    visibility: d.visibility,
                },
            ),
            Err(e) => Err(e),
        },
        _ => Err(DeriveErrorView::UnsupportedShape { record: d.name }),
    }
}

/// Law: derivation is a function of the definition alone. Together with
/// the exact contract of [`Input::new`], deriving the same record-type
/// definition twice yields structurally equal models: same name, same
/// field order, same mode, same visibility.
pub proof fn lemma_derivation_deterministic(a: RecordDefinitionView, b: RecordDefinitionView)
    requires
        a == b,
    ensures
        spec_derive(a) == spec_derive(b),
{
}

fn directive_key() -> (r: String)
    ensures
        r@ == spec_directive_key(),
{
    String::from_str("arrow2_convert")
}

/// Applies one trimmed directive token to the mode being resolved.
fn apply_token(record: &String, raw: &Vec<char>, cur: TraitsToDerive) -> (r: Result<
    TraitsToDerive,
    DeriveError,
>)
    ensures
        match r {
            Ok(m) => spec_apply_token(record@, raw@, cur) == Ok::<
                TraitsToDerive,
                DeriveErrorView,
            >(m),
            Err(e) => spec_apply_token(record@, raw@, cur) == Err::<
                TraitsToDerive,
                DeriveErrorView,
            >(e@),
        },
{
    let t = trim_chars(raw);
    let field_only = chars_of("field_only");
    let serialize_only = chars_of("serialize_only");
    let deserialize_only = chars_of("deserialize_only");
    let mode: Option<TraitsToDerive> = if chars_eq(&t, &field_only) {
        Some(TraitsToDerive::FieldOnly)
    } else if chars_eq(&t, &serialize_only) {
        Some(TraitsToDerive::SerializeOnly)
    } else if chars_eq(&t, &deserialize_only) {
        Some(TraitsToDerive::DeserializeOnly)
    } else {
        None
    };
    match mode {
        Some(m) => {
            if cur != TraitsToDerive::All {
                Err(
                    DeriveError::ConflictingDirectives {
                        record: record.clone(),
                        token: string_from_chars(&t),
                    },
                )
            } else {
                Ok(m)
            }
        },
        None => Err(
            DeriveError::UnknownDirectiveValue {
                record: record.clone(),
                token: string_from_chars(&t),
            },
        ),
    }
}

/// Resolves the mode over one directive value: splits on commas and
/// applies each token, in order, to the mode being resolved.
fn apply_value(record: &String, value: &String, cur: TraitsToDerive) -> (r: Result<
    TraitsToDerive,
    DeriveError,
>)
    ensures
        match r {
            Ok(m) => spec_apply_value(record@, value@, cur) == Ok::<
                TraitsToDerive,
                DeriveErrorView,
            >(m),
            Err(e) => spec_apply_value(record@, value@, cur) == Err::<
                TraitsToDerive,
                DeriveErrorView,
            >(e@),
        },
{
    let cs = chars_of(value.as_str());
    if cs.len() == 0 {
        return Ok(cur);
    }
    let ghost full = spec_split_commas(cs@);
    let mut cur_mode = cur;
    let mut seg: Vec<char> = Vec::new();
    let mut start: usize = 0;
    let mut j: usize = 0;
    proof {
        assert(cs@.subrange(0, cs@.len() as int) =~= cs@);
        assert(seg@ =~= cs@.subrange(0, 0));
    }
    while j < cs.len()
        invariant
            start <= j <= cs@.len(),
            cs@.len() > 0,
            cs@ == value@,
            full == spec_split_commas(cs@),
            seg@ == cs@.subrange(start as int, j as int),
            forall|k: int| start <= k < j ==> cs@[k] != ',',
            spec_apply_tokens(record@, full, cur) == spec_apply_tokens(
                record@,
                spec_split_commas(cs@.subrange(start as int, cs@.len() as int)),
                cur_mode,
            ),
        decreases cs@.len() - j,
    {
        let c = cs[j];
        if c == ',' {
            proof {
                let remainder = cs@.subrange(j + 1 as int, cs@.len() as int);
                assert(cs@.subrange(start as int, cs@.len() as int) =~= seg@ + seq![',']
                    + remainder);
                lemma_split_commas_head(seg@, remainder);
                assert((seq![seg@] + spec_split_commas(remainder)).drop_first()
                    =~= spec_split_commas(remainder));
                assert((seq![seg@] + spec_split_commas(remainder))[0] == seg@);
            }
            match apply_token(record, &seg, cur_mode) {
                Ok(m) => {
                    cur_mode = m;
                },
                Err(e) => {
                    return Err(e);
                },
            }
            start = j + 1;
            seg = Vec::new();
            proof {
                assert(seg@ =~= cs@.subrange(start as int, start as int));
            }
        } else {
            seg.push(c);
            proof {
                assert(seg@ =~= cs@.subrange(start as int, j + 1 as int));
            }
        }
        j += 1;
    }
    proof {
        assert(cs@.subrange(start as int, cs@.len() as int) =~= seg@);
        lemma_split_commas_single(seg@);
        assert(seq![seg@].drop_first() =~= Seq::<Seq<char>>::empty());
        assert(forall|m: TraitsToDerive|
            spec_apply_tokens(record@, Seq::<Seq<char>>::empty(), m) == Ok::<
                TraitsToDerive,
                DeriveErrorView,
            >(m));
        assert(spec_apply_value(record@, value@, cur) == spec_apply_tokens(
            record@,
            seq![seg@],
            cur_mode,
        ));
    }
    let out = apply_token(record, &seg, cur_mode);
    proof {
        reveal_with_fuel(spec_apply_tokens, 2);
        assert(seq![seg@][0] == seg@);
        match &out {
            Ok(m) => {
                assert(spec_apply_tokens(record@, seq![seg@], cur_mode) == Ok::<
                    TraitsToDerive,
                    DeriveErrorView,
                >(*m));
            },
            Err(e) => {
                assert(spec_apply_tokens(record@, seq![seg@], cur_mode) == Err::<
                    TraitsToDerive,
                    DeriveErrorView,
                >(e@));
            },
        }
    }
    out
}

impl Input {
    /// Derives the input model from a record-type definition: rejects
    /// definitions that are not named-field records, keeps the field list
    /// in declaration order without resolving the field types, and
    /// resolves the mode from the directive annotations, defaulting to
    /// deriving everything.
    pub fn new(input: RecordDefinition) -> (r: Result<Input, DeriveError>)
        ensures
            match r {
                Ok(i) => spec_derive(input@) == Ok::<InputView, DeriveErrorView>(i@),
                Err(e) => spec_derive(input@) == Err::<InputView, DeriveErrorView>(e@),
            },
    {
        let ghost d = input@;
        let RecordDefinition { name, visibility, shape, annotations } = input;
        let fields = match shape {
            RecordShape::Record(fields) => fields,
            _ => {
                return Err(DeriveError::UnsupportedShape { record: name });
            },
        };
        let key = directive_key();
        let ghost anns = d.annotations;
        let mut traits_to_derive = TraitsToDerive::All;
        let mut idx: usize = 0;
        proof {
            assert(anns == annotations@.map_values(|a: Annotation| a@));
            assert(anns.subrange(0, anns.len() as int) =~= anns);
        }
        while idx < annotations.len()
            invariant
                idx <= annotations@.len(),
                anns.len() == annotations@.len(),
                anns == annotations@.map_values(|a: Annotation| a@),
                anns == input@.annotations,
                key@ == spec_directive_key(),
                name@ == input@.name,
                visibility == input@.visibility,
                input@.shape == RecordShapeView::Record(fields@.map_values(|f: FieldDef| f@)),
                spec_scan_annotations(input@.name, anns, TraitsToDerive::All)
                    == spec_scan_annotations(
                    input@.name,
                    anns.subrange(idx as int, anns.len() as int),
                    traits_to_derive,
                ),
            decreases annotations@.len() - idx,
        {
            let a = &annotations[idx];
            proof {
                assert(anns[idx as int] == a@);
                assert(anns.subrange(idx as int, anns.len() as int).drop_first() =~= anns.subrange(
                    idx + 1 as int,
                    anns.len() as int,
                ));
            }
            if a.key == key {
                match &a.value {
                    AnnotationValue::Text(s) => {
                        match apply_value(&name, s, traits_to_derive) {
                            Ok(m) => {
                                traits_to_derive = m;
                            },
                            Err(e) => {
                                return Err(e);
                            },
                        }
                    },
                    _ => {
                        return Err(DeriveError::MalformedDirective { record: name });
                    },
                }
            }
            idx += 1;
        }
        proof {
            assert(anns.subrange(idx as int, anns.len() as int) =~= Seq::<AnnotationView>::empty());
        }
        Ok(Input { name, traits_to_derive, fields, visibility })
    }

    /// The reserved name of the mutable builder type for this record
    /// type.
    pub fn mutable_array_name(&self) -> (r: String)
        ensures
            r@ == "Mutable"@ + self.name@ + "Array"@,
    {
        let mut s = String::from_str("Mutable");
        s.append(self.name.as_str());
        s.append("Array");
        s
    }

    /// The reserved name of the finished immutable array type for this
    /// record type.
    pub fn array_name(&self) -> (r: String)
        ensures
            r@ == self.name@ + "Array"@,
    {
        let mut s = self.name.clone();
        s.append("Array");
        s
    }

    /// The reserved name of the deserializing iterator type for this
    /// record type.
    pub fn iterator_name(&self) -> (r: String)
        ensures
            r@ == self.name@ + "ArrayIterator"@,
    {
        let mut s = self.name.clone();
        s.append("ArrayIterator");
        s
    }
}

} // verus!
