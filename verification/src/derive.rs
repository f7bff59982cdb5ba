//! Deriving sameness for a record from the shape of its fields.
//!
//! The derived comparison is the conjunction, in declaration order, of the
//! sameness of each field. It stops at the first field that differs.

use vstd::prelude::*;

verus! {

/// The fields of a record.
#[derive(Debug, Clone, PartialEq, Eq)]
pub enum Fields {
    /// Fields with names, in declaration order.
    Named(Vec<String>),
    /// This many fields without names, addressed by position.
    Unnamed(usize),
    /// No fields.
    Unit,
}

/// The kind of type a derivation is asked for.
#[derive(Debug, Clone, PartialEq, Eq)]
pub enum Data {
    /// A record.
    Struct(Fields),
    /// A type with alternative variants.
    Enum,
    /// A type with overlapping fields.
    Union,
}

/// The type a derivation is asked for.
#[derive(Debug, Clone, PartialEq, Eq)]
pub struct DeriveInput {
    /// The type's name.
    pub ident: String,
    /// The type's shape.
    pub data: Data,
}

/// How one field of a record is addressed.
#[derive(Debug, Clone, PartialEq, Eq)]
pub enum Member {
    /// By name.
    Named(String),
    /// By position.
    Unnamed(usize),
}

/// A derived comparison: the fields to compare, in order.
#[derive(Debug, Clone, PartialEq, Eq)]
pub struct Derived {
    /// The name of the type that the comparison is for.
    pub ident: String,
    /// The fields whose sameness is conjoined, first to last. With no
    /// fields the comparison always answers "same".
    pub members: Vec<Member>,
}

/// Why a derivation failed.
#[derive(Debug, Clone, PartialEq, Eq)]
pub enum DeriveError {
    /// The named type is not a record.
    UnsupportedShape(String),
}

/// What a derived comparison does next.
#[derive(Debug, Clone, Copy, PartialEq, Eq, Structural)]
pub enum Step {
    /// Compare the field at this position.
    Compare(usize),
    /// Stop with this answer.
    Done(bool),
}

/// The fields that a record's derived comparison goes through, in order.
pub open spec fn members_of(fields: Fields) -> Seq<Member> {
    match fields {
        Fields::Named(names) => Seq::new(names@.len(), |i: int| Member::Named(names@[i])),
        Fields::Unnamed(count) => Seq::new(count as nat, |i: int| Member::Unnamed(i as usize)),
        Fields::Unit => Seq::empty(),
    }
}

/// What a derivation yields: a comparison for a record, an error that
/// names the type for anything else.
pub open spec fn derivation(input: DeriveInput) -> Result<(String, Seq<Member>), DeriveError> {
    match input.data {
        Data::Struct(fields) => Ok((input.ident, members_of(fields))),
        _ => Err(DeriveError::UnsupportedShape(input.ident)),
    }
}

/// Derives the comparison for a type from its shape.
pub fn derive_is_same(input: &DeriveInput) -> (r: Result<Derived, DeriveError>)
    ensures
        match derivation(*input) {
            Ok((ident, members)) => r matches Ok(d) && d.ident == ident && d.members@ == members,
            Err(e) => r == Err::<Derived, DeriveError>(e),
        },
{
    match &input.data {
        Data::Struct(fields) => {
            let mut members: Vec<Member> = Vec::new();
            match fields {
                Fields::Named(names) => {
                    let mut i: usize = 0;
                    while i < names.len()
                        invariant
                            i <= names@.len(),
                            members@.len() == i,
                            forall|j: int| 0 <= j < i ==> members@[j] == Member::Named(names@[j]),
                        decreases names@.len() - i,
                    {
                        members.push(Member::Named(names[i].clone()));
                        i += 1;
                    }
                },
                Fields::Unnamed(count) => {
                    let mut i: usize = 0;
                    while i < *count
                        invariant
                            i <= *count,
                            members@.len() == i,
                            forall|j: int| 0 <= j < i ==> members@[j] == Member::Unnamed(j as usize),
                        decreases *count - i,
                    {
                        members.push(Member::Unnamed(i));
                        i += 1;
                    }
                },
                Fields::Unit => {},
            }
            assert(members@ =~= members_of(*fields));
            Ok(Derived { ident: input.ident.clone(), members })
        },
        _ => Err(DeriveError::UnsupportedShape(input.ident.clone())),
    }
}

/// The conjunction of field-by-field answers.
pub open spec fn all_same(answers: Seq<bool>) -> bool {
    forall|i: int| 0 <= i < answers.len() ==> answers[i]
}

/// How many fields a derived comparison looks at: all of them, or those
/// up to and including the first that differs.
pub open spec fn fields_compared(answers: Seq<bool>) -> nat
    decreases answers.len(),
{
    if answers.len() == 0 {
        0
    } else if !answers[0] {
        1
    } else {
        1 + fields_compared(answers.skip(1))
    }
}

/// The step that follows the comparison of field `at` of `count`.
pub open spec fn step_after(count: usize, at: usize, answer: bool) -> Step {
    if !answer {
        Step::Done(false)
    } else if at < count && at + 1 < count {
        Step::Compare((at + 1) as usize)
    } else {
        Step::Done(true)
    }
}

/// The first step of a derived comparison over `count` fields.
pub fn first_step(count: usize) -> (s: Step)
    ensures
        s == (if count == 0 {
            Step::Done(true)
        } else {
            Step::Compare(0)
        }),
{
    if count == 0 {
        Step::Done(true)
    } else {
        Step::Compare(0)
    }
}

/// The step after field `at` of `count` was compared with `answer`: stop
/// with "not same" at once if it differs, go on to the next field if
/// there is one, else stop with "same".
pub fn next_step(count: usize, at: usize, answer: bool) -> (s: Step)
    ensures
        s == step_after(count, at, answer),
{
    if !answer {
        Step::Done(false)
    } else if at < count && at + 1 < count {
        Step::Compare(at + 1)
    } else {
        Step::Done(true)
    }
}

/// While every answer so far was "same", each field looked at counts once.
pub proof fn compared_after_same_prefix(answers: Seq<bool>, k: int)
    requires
        0 <= k <= answers.len(),
        forall|j: int| 0 <= j < k ==> answers[j],
    ensures
        fields_compared(answers) == k + fields_compared(answers.skip(k)),
    decreases k,
{
    if k > 0 {
        let rest = answers.skip(1);
        assert forall|j: int| 0 <= j < k - 1 implies rest[j] by {
            assert(rest[j] == answers[j + 1]);
        }
        compared_after_same_prefix(rest, k - 1);
        assert(rest.skip(k - 1) =~= answers.skip(k));
        assert(answers[0]);
    } else {
        assert(answers.skip(0) =~= answers);
    }
}

/// Runs a derived comparison over the answers that its fields would give,
/// one step at a time. Returns the comparison's answer, which is the
/// conjunction of the fields' answers, and how many fields it looked at:
/// none after the first that differs.
pub fn conclude(answers: &Vec<bool>) -> (r: (bool, usize))
    ensures
        r.0 == all_same(answers@),
        r.1 == fields_compared(answers@),
{
    let count = answers.len();
    let mut step = first_step(count);
    let mut compared: usize = 0;
    loop
        invariant
            count == answers@.len(),
            compared <= count,
            match step {
                Step::Compare(at) => at == compared && at < count && forall|j: int|
                    0 <= j < compared ==> answers@[j],
                Step::Done(true) => compared == count && all_same(answers@),
                Step::Done(false) => compared > 0 && !answers@[compared - 1] && forall|j: int|
                    0 <= j < compared - 1 ==> answers@[j],
            },
        decreases
                count - compared + (if step is Compare {
                    1int
                } else {
                    0int
                }),
    {
        match step {
            Step::Done(answer) => {
                proof {
                    if answer {
                        compared_after_same_prefix(answers@, count as int);
                    } else {
                        compared_after_same_prefix(answers@, compared - 1);
                        assert(answers@.skip(compared - 1)[0] == answers@[compared - 1]);
                    }
                }
                return (answer, compared);
            },
            Step::Compare(at) => {
                let answer = answers[at];
                compared += 1;
                step = next_step(count, at, answer);
            },
        }
    }
}

} // verus!
