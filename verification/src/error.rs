use vstd::prelude::*;
use vstd::string::StringExecFns;

verus! {

/// Why a project could not be bound.
#[derive(Debug, PartialEq, Eq)]
pub enum LdtkError {
    /// A field definition declares a kind that is not known.
    UnknownFieldKind { identifier: String, kind: String },
    /// A layer definition declares a kind that is not known.
    UnknownLayerKind { identifier: String, kind: String },
    /// A colour literal is not of the form `#rrggbb`.
    MalformedColor { text: String },
    /// A field of an entity has no value and may not be null.
    MissingFieldsForEntities { entity: String, field: String },
    /// A declared layer has no instance in a level.
    MissingFieldsForLayers { layer: String },
    /// A field of a level has no value and may not be null.
    MissingFieldsForLevels { level: String, field: String },
    /// The value of a field is not of the kind that its definition declares.
    MismatchedFieldValue { owner: String, field: String },
    /// The value of an enumeration field is none of the enumeration's values.
    UnmatchedEnumValue { enumeration: String, value: String },
    /// A layer instance is of a kind that is not known.
    UnknownLayerType(String),
    /// An entity instance is of no declared entity kind.
    UnknownEntityType(String),
    /// A level keeps its layers in a file of its own.
    SplitProject { level: String },
    /// A transformed coordinate is no 64-bit integer.
    CoordinateOutOfRange,
}

/// An error with its texts as sequences of characters.
pub enum LdtkErrorView {
    UnknownFieldKind { identifier: Seq<char>, kind: Seq<char> },
    UnknownLayerKind { identifier: Seq<char>, kind: Seq<char> },
    MalformedColor { text: Seq<char> },
    MissingFieldsForEntities { entity: Seq<char>, field: Seq<char> },
    MissingFieldsForLayers { layer: Seq<char> },
    MissingFieldsForLevels { level: Seq<char>, field: Seq<char> },
    MismatchedFieldValue { owner: Seq<char>, field: Seq<char> },
    UnmatchedEnumValue { enumeration: Seq<char>, value: Seq<char> },
    UnknownLayerType(Seq<char>),
    UnknownEntityType(Seq<char>),
    SplitProject { level: Seq<char> },
    CoordinateOutOfRange,
}

impl View for LdtkError {
    type V = LdtkErrorView;

    open spec fn view(&self) -> LdtkErrorView {
        match self {
            LdtkError::UnknownFieldKind { identifier, kind } => LdtkErrorView::UnknownFieldKind {
                identifier: identifier@,
                kind: kind@,
            },
            LdtkError::UnknownLayerKind { identifier, kind } => LdtkErrorView::UnknownLayerKind {
                identifier: identifier@,
                kind: kind@,
            },
            LdtkError::MalformedColor { text } => LdtkErrorView::MalformedColor { text: text@ },
            LdtkError::MissingFieldsForEntities {
                entity,
                field,
            } => LdtkErrorView::MissingFieldsForEntities { entity: entity@, field: field@ },
            LdtkError::MissingFieldsForLayers { layer } => LdtkErrorView::MissingFieldsForLayers {
                layer: layer@,
            },
            LdtkError::MissingFieldsForLevels {
                level,
                field,
            } => LdtkErrorView::MissingFieldsForLevels { level: level@, field: field@ },
            LdtkError::MismatchedFieldValue {
                owner,
                field,
            } => LdtkErrorView::MismatchedFieldValue { owner: owner@, field: field@ },
            LdtkError::UnmatchedEnumValue {
                enumeration,
                value,
            } => LdtkErrorView::UnmatchedEnumValue { enumeration: enumeration@, value: value@ },
            LdtkError::UnknownLayerType(kind) => LdtkErrorView::UnknownLayerType(kind@),
            LdtkError::UnknownEntityType(kind) => LdtkErrorView::UnknownEntityType(kind@),
            LdtkError::SplitProject { level } => LdtkErrorView::SplitProject { level: level@ },
            LdtkError::CoordinateOutOfRange => LdtkErrorView::CoordinateOutOfRange,
        }
    }
}

/// What a fallible step returns.
pub type LdtkResult<T> = Result<T, LdtkError>;

/// A result with the error taken by its view.
pub open spec fn failure_viewed<T>(result: Result<T, LdtkError>) -> Result<T, LdtkErrorView> {
    match result {
        Ok(value) => Ok(value),
        Err(error) => Err(error@),
    }
}

/// A result with both sides taken by their views.
pub open spec fn viewed<T: View>(result: Result<T, LdtkError>) -> Result<T::V, LdtkErrorView> {
    match result {
        Ok(value) => Ok(value@),
        Err(error) => Err(error@),
    }
}

/// The views of the items of a sequence.
pub open spec fn views<T: View>(items: Seq<T>) -> Seq<T::V> {
    Seq::new(items.len(), |i: int| items[i]@)
}

/// A result that holds a vector, with the items and the error taken by their views.
pub open spec fn all_viewed<T: View>(result: Result<Vec<T>, LdtkError>) -> Result<
    Seq<T::V>,
    LdtkErrorView,
> {
    match result {
        Ok(items) => Ok(views(items@)),
        Err(error) => Err(error@),
    }
}

/// The results of a run of steps as one result: the values of all of them,
/// or the error of the first step that failed.
pub open spec fn gathered<V, E>(steps: Seq<Result<V, E>>) -> Result<Seq<V>, E>
    decreases steps.len(),
{
    if steps.len() == 0 {
        Ok(Seq::empty())
    } else {
        match gathered(steps.drop_last()) {
            Err(error) => Err(error),
            Ok(values) => match steps.last() {
                Ok(value) => Ok(values.push(value)),
                Err(error) => Err(error),
            },
        }
    }
}

/// Once a run of steps has failed, steps that follow change nothing.
pub proof fn lemma_gathered_failure_stays<V, E>(steps: Seq<Result<V, E>>, cut: int)
    requires
        0 <= cut <= steps.len(),
        gathered(steps.take(cut)) is Err,
    ensures
        gathered(steps) == gathered(steps.take(cut)),
    decreases steps.len(),
{
    if cut == steps.len() {
        assert(steps.take(cut) =~= steps);
    } else {
        assert(steps.drop_last().take(cut) =~= steps.take(cut));
        lemma_gathered_failure_stays(steps.drop_last(), cut);
    }
}

/// No step taken yet, nothing has failed and nothing was gathered.
pub proof fn lemma_gathered_none<V, E>(steps: Seq<Result<V, E>>)
    ensures
        gathered(steps.take(0)) == Ok::<Seq<V>, E>(Seq::empty()),
{
}

/// A step that succeeds adds its value to what was gathered before it.
pub proof fn lemma_gathered_next<V, E>(steps: Seq<Result<V, E>>, at: int, value: V)
    requires
        0 <= at < steps.len(),
        gathered(steps.take(at)) is Ok,
        steps[at] == Ok::<V, E>(value),
    ensures
        gathered(steps.take(at + 1)) == Ok::<Seq<V>, E>(gathered(steps.take(at))->Ok_0.push(value)),
{
    assert(steps.take(at + 1).drop_last() =~= steps.take(at));
}

/// The first step that fails gives the error of the whole run.
pub proof fn lemma_gathered_fails_at<V, E>(steps: Seq<Result<V, E>>, at: int, error: E)
    requires
        0 <= at < steps.len(),
        gathered(steps.take(at)) is Ok,
        steps[at] == Err::<V, E>(error),
    ensures
        gathered(steps) == Err::<Seq<V>, E>(error),
{
    assert(steps.take(at + 1).drop_last() =~= steps.take(at));
    lemma_gathered_failure_stays(steps, at + 1);
}

/// All steps taken, what was gathered is the outcome of the run.
pub proof fn lemma_gathered_all<V, E>(steps: Seq<Result<V, E>>)
    ensures
        gathered(steps.take(steps.len() as int)) == gathered(steps),
{
    assert(steps.take(steps.len() as int) =~= steps);
}

/// The views of a sequence with one more item.
pub proof fn lemma_views_push<T: View>(items: Seq<T>, item: T)
    ensures
        views(items.push(item)) == views(items).push(item@),
{
    assert(views(items.push(item)) =~= views(items).push(item@));
}

/// No items, no views.
pub proof fn lemma_views_none<T: View>()
    ensures
        views(Seq::<T>::empty()) == Seq::<T::V>::empty(),
{
    assert(views(Seq::<T>::empty()) =~= Seq::<T::V>::empty());
}

/// The values of a run of steps that all succeeded stand in the order of the steps.
pub proof fn lemma_gathered_values<V, E>(steps: Seq<Result<V, E>>)
    requires
        gathered(steps) is Ok,
    ensures
        gathered(steps)->Ok_0.len() == steps.len(),
        forall|i: int|
            0 <= i < steps.len() ==> steps[i] == Ok::<V, E>(#[trigger] gathered(steps)->Ok_0[i]),
    decreases steps.len(),
{
    if steps.len() > 0 {
        lemma_gathered_values(steps.drop_last());
    }
}

/// A run of steps fails exactly if one of them does.
pub proof fn lemma_gathered_fails<V, E>(steps: Seq<Result<V, E>>)
    ensures
        gathered(steps) is Err <==> exists|i: int| 0 <= i < steps.len() && steps[i] is Err,
    decreases steps.len(),
{
    if steps.len() > 0 {
        lemma_gathered_fails(steps.drop_last());
        if gathered(steps.drop_last()) is Err {
            let i = choose|i: int| 0 <= i < steps.drop_last().len() && steps.drop_last()[i] is Err;
            assert(steps[i] is Err);
        } else if steps.last() is Err {
            assert(steps[steps.len() - 1] is Err);
        } else {
            assert forall|i: int| 0 <= i < steps.len() implies !(steps[i] is Err) by {
                if i < steps.len() - 1 {
                    assert(steps.drop_last()[i] == steps[i]);
                }
            }
        }
    }
}

impl LdtkError {
    /// A sentence that says what went wrong and names what it went wrong with.
    pub fn message(&self) -> (text: String)
        ensures
            text@ == message_of(self@),
    {
        match self {
            LdtkError::UnknownFieldKind { identifier, kind } => {
                let mut text = String::from_str("unknown kind of field ");
                text.append(identifier.as_str());
                text.append(": ");
                text.append(kind.as_str());
                text
            },
            LdtkError::UnknownLayerKind { identifier, kind } => {
                let mut text = String::from_str("unknown kind of layer ");
                text.append(identifier.as_str());
                text.append(": ");
                text.append(kind.as_str());
                text
            },
            LdtkError::MalformedColor { text } => {
                String::from_str("malformed color: ").concat(text.as_str())
            },
            LdtkError::MissingFieldsForEntities { entity, field } => {
                let mut text = String::from_str("missing field of entity ");
                text.append(entity.as_str());
                text.append(": ");
                text.append(field.as_str());
                text
            },
            LdtkError::MissingFieldsForLayers { layer } => {
                String::from_str("missing layer: ").concat(layer.as_str())
            },
            LdtkError::MissingFieldsForLevels { level, field } => {
                let mut text = String::from_str("missing field of level ");
                text.append(level.as_str());
                text.append(": ");
                text.append(field.as_str());
                text
            },
            LdtkError::MismatchedFieldValue { owner, field } => {
                let mut text = String::from_str("mismatched value of field of ");
                text.append(owner.as_str());
                text.append(": ");
                text.append(field.as_str());
                text
            },
            LdtkError::UnmatchedEnumValue { enumeration, value } => {
                let mut text = String::from_str("unmatched value of enum ");
                text.append(enumeration.as_str());
                text.append(": ");
                text.append(value.as_str());
                text
            },
            LdtkError::UnknownLayerType(kind) => {
                String::from_str("unknown layer type: ").concat(kind.as_str())
            },
            LdtkError::UnknownEntityType(kind) => {
                String::from_str("unknown entity type: ").concat(kind.as_str())
            },
            LdtkError::SplitProject { level } => {
                String::from_str("level stored in a file of its own: ").concat(level.as_str())
            },
            LdtkError::CoordinateOutOfRange => String::from_str("coordinate out of range"),
        }
    }
}

/// The sentence that describes an error.
pub open spec fn message_of(error: LdtkErrorView) -> Seq<char> {
    match error {
        LdtkErrorView::UnknownFieldKind { identifier, kind } => "unknown kind of field "@
            + identifier + ": "@ + kind,
        LdtkErrorView::UnknownLayerKind { identifier, kind } => "unknown kind of layer "@
            + identifier + ": "@ + kind,
        LdtkErrorView::MalformedColor { text } => "malformed color: "@ + text,
        LdtkErrorView::MissingFieldsForEntities { entity, field } => "missing field of entity "@
            + entity + ": "@ + field,
        LdtkErrorView::MissingFieldsForLayers { layer } => "missing layer: "@ + layer,
        LdtkErrorView::MissingFieldsForLevels { level, field } => "missing field of level "@ + level
            + ": "@ + field,
        LdtkErrorView::MismatchedFieldValue { owner, field } => "mismatched value of field of "@
            + owner + ": "@ + field,
        LdtkErrorView::UnmatchedEnumValue { enumeration, value } => "unmatched value of enum "@
            + enumeration + ": "@ + value,
        LdtkErrorView::UnknownLayerType(kind) => "unknown layer type: "@ + kind,
        LdtkErrorView::UnknownEntityType(kind) => "unknown entity type: "@ + kind,
        LdtkErrorView::SplitProject { level } => "level stored in a file of its own: "@ + level,
        LdtkErrorView::CoordinateOutOfRange => "coordinate out of range"@,
    }
}

} // verus!
