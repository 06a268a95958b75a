pub mod patch;

use crate::middleware::cond::{
    countable, i16_bytes, i32_bytes, lemma_i16_bytes_apart, lemma_i32_bytes_apart,
    lemma_optional_text_bytes_apart, lemma_same_parts, lemma_text_bytes_apart,
    optional_text_bytes, text_bytes, write_i16, write_i32, write_optional_text, write_text,
    Canonical,
};
use crate::model::player::Player;
use crate::model::record::{clone_text, Record};
use vstd::prelude::*;

verus! {

/// A level on the list.
#[derive(Debug, PartialEq, Eq)]
pub struct Demon {
    /// The name, by which a demon is found.
    pub name: String,
    /// The rank on the list, counted from 1.
    pub position: i16,
    /// The least progress that a record on this demon must show.
    pub requirement: i16,
    pub video: Option<String>,
    pub verifier: Player,
    pub publisher: Player,
}

/// What a record keeps of the demon that it was made on.
#[derive(Debug, PartialEq, Eq)]
pub struct EmbeddedDemon {
    pub name: String,
    pub position: i16,
}

/// A demon together with those who built it and the records made on it.
#[derive(Debug, PartialEq, Eq)]
pub struct DemonWithCreatorsAndRecords {
    pub demon: Demon,
    pub creators: Vec<Player>,
    pub records: Vec<Record>,
}

impl Clone for EmbeddedDemon {
    fn clone(&self) -> (copy: Self)
        ensures
            copy == *self,
    {
        EmbeddedDemon { name: self.name.clone(), position: self.position }
    }
}

impl Clone for Demon {
    fn clone(&self) -> (copy: Self)
        ensures
            copy == *self,
    {
        Demon {
            name: self.name.clone(),
            position: self.position,
            requirement: self.requirement,
            video: clone_text(&self.video),
            verifier: self.verifier.clone(),
            publisher: self.publisher.clone(),
        }
    }
}

impl Demon {
    /// What a record on this demon keeps of it.
    pub open spec fn spec_embedded(self) -> EmbeddedDemon {
        EmbeddedDemon { name: self.name, position: self.position }
    }

    #[verifier::when_used_as_spec(spec_embedded)]
    pub fn embedded(self) -> (embedded: EmbeddedDemon)
        ensures
            embedded == self.spec_embedded(),
    {
        EmbeddedDemon { name: self.name, position: self.position }
    }
}

impl Canonical for Demon {
    /// A demon counts as unchanged while its name, its position, its requirement,
    /// its video, its verifier and its publisher are the same.
    open spec fn canonical(&self) -> Seq<u8> {
        text_bytes(self.name@) + i16_bytes(self.position) + i16_bytes(self.requirement)
            + optional_text_bytes(self.video) + i32_bytes(self.verifier.id) + i32_bytes(
            self.publisher.id,
        )
    }

    fn canonical_bytes(&self) -> (bytes: Vec<u8>) {
        let mut bytes: Vec<u8> = Vec::new();
        write_text(&mut bytes, &self.name);
        write_i16(&mut bytes, self.position);
        write_i16(&mut bytes, self.requirement);
        write_optional_text(&mut bytes, &self.video);
        write_i32(&mut bytes, self.verifier.id);
        write_i32(&mut bytes, self.publisher.id);
        assert(bytes@ =~= self.canonical());
        bytes
    }
}

impl Demon {
    /// Whether this demon and `other` are in the same state, as far as a write can
    /// be made to depend on it.
    pub open spec fn same_state(self, other: Demon) -> bool {
        &&& self.name@ == other.name@
        &&& self.position == other.position
        &&& self.requirement == other.requirement
        &&& (self.video is Some <==> other.video is Some)
        &&& (self.video is Some ==> self.video->0@ == other.video->0@)
        &&& self.verifier.id == other.verifier.id
        &&& self.publisher.id == other.publisher.id
    }

    /// Whether the texts of this demon can be counted, as they can for every demon
    /// that a machine holds.
    pub open spec fn countable(self) -> bool {
        &&& countable(self.name@)
        &&& (self.video matches Some(video) ==> countable(video@))
    }
}

/// Six parts in a row are the first of them and then the rest in a row.
proof fn lemma_six_parts(
    first: Seq<u8>,
    second: Seq<u8>,
    third: Seq<u8>,
    fourth: Seq<u8>,
    fifth: Seq<u8>,
    sixth: Seq<u8>,
)
    ensures
        first + second + third + fourth + fifth + sixth == first + (second + (third + (fourth + (
            fifth + sixth)))),
{
    assert(first + second + third + fourth + fifth + sixth =~= first + (second + (third + (fourth
        + (fifth + sixth)))));
}

/// Demons with the same bytes are in the same state.
proof fn lemma_same_bytes_same_state(a: Demon, b: Demon)
    requires
        a.countable(),
        b.countable(),
        a.canonical() == b.canonical(),
    ensures
        a.same_state(b),
{
    let a5 = i32_bytes(a.publisher.id);
    let b5 = i32_bytes(b.publisher.id);
    let a4 = i32_bytes(a.verifier.id) + a5;
    let b4 = i32_bytes(b.verifier.id) + b5;
    let a3 = optional_text_bytes(a.video) + a4;
    let b3 = optional_text_bytes(b.video) + b4;
    let a2 = i16_bytes(a.requirement) + a3;
    let b2 = i16_bytes(b.requirement) + b3;
    let a1 = i16_bytes(a.position) + a2;
    let b1 = i16_bytes(b.position) + b2;
    assert(a.canonical() == text_bytes(a.name@) + a1) by {
        lemma_six_parts(
            text_bytes(a.name@),
            i16_bytes(a.position),
            i16_bytes(a.requirement),
            optional_text_bytes(a.video),
            i32_bytes(a.verifier.id),
            a5,
        );
    }
    assert(b.canonical() == text_bytes(b.name@) + b1) by {
        lemma_six_parts(
            text_bytes(b.name@),
            i16_bytes(b.position),
            i16_bytes(b.requirement),
            optional_text_bytes(b.video),
            i32_bytes(b.verifier.id),
            b5,
        );
    }
    assert(a.name@ == b.name@ && a1 == b1) by {
        lemma_text_bytes_apart(a.name@, a1, b.name@, b1);
    }
    assert(a.position == b.position && a2 == b2) by {
        lemma_same_parts(i16_bytes(a.position), a2, i16_bytes(b.position), b2);
        lemma_i16_bytes_apart(a.position, b.position);
    }
    assert(a.requirement == b.requirement && a3 == b3) by {
        lemma_same_parts(i16_bytes(a.requirement), a3, i16_bytes(b.requirement), b3);
        lemma_i16_bytes_apart(a.requirement, b.requirement);
    }
    assert((a.video is Some <==> b.video is Some) && (a.video is Some ==> a.video->0@
        == b.video->0@) && a4 == b4) by {
        lemma_optional_text_bytes_apart(a.video, a4, b.video, b4);
    }
    assert(a.verifier.id == b.verifier.id && a5 == b5) by {
        lemma_same_parts(i32_bytes(a.verifier.id), a5, i32_bytes(b.verifier.id), b5);
        lemma_i32_bytes_apart(a.verifier.id, b.verifier.id);
    }
    assert(a.publisher.id == b.publisher.id) by {
        lemma_i32_bytes_apart(a.publisher.id, b.publisher.id);
    }
}

/// The bytes that stand for the state of a demon tell the states apart: two demons
/// have the same bytes exactly when they are in the same state. A token that was
/// made of one state fits another only where the hashes of different bytes
/// collide.
pub proof fn lemma_demon_states_apart(a: Demon, b: Demon)
    requires
        a.countable(),
        b.countable(),
    ensures
        a.canonical() == b.canonical() <==> a.same_state(b),
{
    if a.same_state(b) {
        assert(optional_text_bytes(a.video) == optional_text_bytes(b.video));
    }
    if a.canonical() == b.canonical() {
        lemma_same_bytes_same_state(a, b);
    }
}

} // verus!
