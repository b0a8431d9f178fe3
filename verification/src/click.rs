//! Reading what a button of a suggestion message stands for.
//!
//! A button carries an identifier of the form
//! `action:type:reference:map:user`.

use crate::text::{
    chars_of, lemma_split_has_parts, parse_unsigned, parsed_unsigned, same_text, split,
    split_at_char, texts,
};
use vstd::prelude::*;

verus! {

/// What a button asks for.
#[derive(Clone, Copy, Debug, PartialEq, Eq, Structural)]
pub enum ClickKind {
    ApproveWithUpload,
    ApproveNoUpload,
    Decline,
}

/// How the score of a suggestion is referred to.
#[derive(Clone, Copy, Debug, PartialEq, Eq, Structural)]
pub enum ScoreType {
    /// By the identifier of the score.
    ScoreId,
    /// By the hash of a replay file.
    ReplayFile,
}

/// Why an identifier could not be read.
#[derive(Clone, Copy, Debug, PartialEq, Eq, Structural)]
pub enum ClickError {
    /// The action is none of the known ones.
    UnknownIdentifier,
    /// The action is not followed by exactly four values.
    WrongArity,
    /// The user is no unsigned integer of 64 bits.
    BadUserId,
    /// The map is no unsigned integer of 32 bits.
    BadMapId,
}

/// The score a suggestion is about and who suggested it.
#[derive(Debug, PartialEq, Eq)]
pub struct ScoreMapping {
    pub reference: String,
    pub map_id: u32,
    pub score_type: ScoreType,
    pub requesting_user: u64,
}

/// What a click on a button stands for.
#[derive(Debug, PartialEq, Eq)]
pub struct Click {
    pub kind: ClickKind,
    pub score: ScoreMapping,
}

/// A score mapping as plain values.
pub struct MappingView {
    pub reference: Seq<char>,
    pub map_id: u32,
    pub score_type: ScoreType,
    pub requesting_user: u64,
}

/// A click as plain values.
pub struct ClickView {
    pub kind: ClickKind,
    pub score: MappingView,
}

impl View for ScoreMapping {
    type V = MappingView;

    open spec fn view(&self) -> MappingView {
        MappingView {
            reference: self.reference@,
            map_id: self.map_id,
            score_type: self.score_type,
            requesting_user: self.requesting_user,
        }
    }
}

impl View for Click {
    type V = ClickView;

    open spec fn view(&self) -> ClickView {
        ClickView { kind: self.kind, score: self.score@ }
    }
}

/// The action an identifier starts with.
pub open spec fn kind_of(action: Seq<char>) -> Option<ClickKind> {
    if action == "approveWithUpload"@ {
        Some(ClickKind::ApproveWithUpload)
    } else if action == "approveNoUpload"@ {
        Some(ClickKind::ApproveNoUpload)
    } else if action == "decline"@ {
        Some(ClickKind::Decline)
    } else {
        None
    }
}

/// The way of referring to a score that `text` names; anything but
/// `replayfile` means the identifier of the score.
pub open spec fn score_type_of(text: Seq<char>) -> ScoreType {
    if text == "replayfile"@ {
        ScoreType::ReplayFile
    } else {
        ScoreType::ScoreId
    }
}

/// The score mapping that the four values `type`, `reference`, `map` and
/// `user` stand for. The user is read before the map.
pub open spec fn mapping_of(contents: Seq<Seq<char>>) -> Result<MappingView, ClickError> {
    if contents.len() != 4 {
        Err(ClickError::WrongArity)
    } else {
        match parsed_unsigned(contents[3], u64::MAX as nat) {
            None => Err(ClickError::BadUserId),
            Some(user) => match parsed_unsigned(contents[2], u32::MAX as nat) {
                None => Err(ClickError::BadMapId),
                Some(map) => Ok(
                    MappingView {
                        reference: contents[1],
                        map_id: map as u32,
                        score_type: score_type_of(contents[0]),
                        requesting_user: user as u64,
                    },
                ),
            },
        }
    }
}

/// What the identifier `custom_id` of a button stands for. The action is
/// looked at first, then the number of values, then the values.
pub open spec fn click_of(custom_id: Seq<char>) -> Result<ClickView, ClickError> {
    let parts = split(custom_id, ':');
    match kind_of(parts[0]) {
        None => Err(ClickError::UnknownIdentifier),
        Some(kind) => match mapping_of(values_from(parts, 1)) {
            Ok(score) => Ok(ClickView { kind, score }),
            Err(e) => Err(e),
        },
    }
}

/// The values of `contents` from index `from` on; none if there are fewer.
pub open spec fn values_from(contents: Seq<Seq<char>>, from: int) -> Seq<Seq<char>> {
    if 0 <= from <= contents.len() {
        contents.subrange(from, contents.len() as int)
    } else {
        Seq::empty()
    }
}

/// The view of a result.
pub open spec fn mapping_view(r: Result<ScoreMapping, ClickError>) -> Result<
    MappingView,
    ClickError,
> {
    match r {
        Ok(m) => Ok(m@),
        Err(e) => Err(e),
    }
}

/// The view of a result.
pub open spec fn click_view(r: Result<Click, ClickError>) -> Result<ClickView, ClickError> {
    match r {
        Ok(c) => Ok(c@),
        Err(e) => Err(e),
    }
}

impl ScoreMapping {
    /// Reads a score mapping from the values `contents[from..]`.
    pub fn new(contents: &Vec<String>, from: usize) -> (mapping: Result<ScoreMapping, ClickError>)
        ensures
            mapping_view(mapping) == mapping_of(values_from(texts(contents@), from as int)),
    {
        let ghost values = values_from(texts(contents@), from as int);
        if from > contents.len() || contents.len() - from != 4 {
            return Err(ClickError::WrongArity);
        }
        assert(values[0] == contents@[from + 0]@);
        assert(values[1] == contents@[from + 1]@);
        assert(values[2] == contents@[from + 2]@);
        assert(values[3] == contents@[from + 3]@);
        let user = match parse_unsigned(&chars_of(contents[from + 3].as_str()), u64::MAX) {
            Some(user) => user,
            None => {
                return Err(ClickError::BadUserId);
            },
        };
        let map = match parse_unsigned(&chars_of(contents[from + 2].as_str()), 0xffff_ffff) {
            Some(map) => map,
            None => {
                return Err(ClickError::BadMapId);
            },
        };
        let score_type = if same_text(contents[from].as_str(), "replayfile") {
            ScoreType::ReplayFile
        } else {
            ScoreType::ScoreId
        };
        Ok(
            ScoreMapping {
                reference: contents[from + 1].clone(),
                map_id: map as u32,
                score_type,
                requesting_user: user,
            },
        )
    }
}

/// Reads what the identifier of a button stands for.
pub fn handle_click(custom_id: &str) -> (click: Result<Click, ClickError>)
    ensures
        click_view(click) == click_of(custom_id@),
{
    let chars = chars_of(custom_id);
    let parts = split_at_char(&chars, ':');
    proof {
        lemma_split_has_parts(custom_id@, ':');
    }
    assert(texts(parts@)[0] == parts@[0]@);
    let action = parts[0].as_str();
    let kind = if same_text(action, "approveWithUpload") {
        ClickKind::ApproveWithUpload
    } else if same_text(action, "approveNoUpload") {
        ClickKind::ApproveNoUpload
    } else if same_text(action, "decline") {
        ClickKind::Decline
    } else {
        return Err(ClickError::UnknownIdentifier);
    };
    match ScoreMapping::new(&parts, 1) {
        Ok(score) => Ok(Click { kind, score }),
        Err(e) => Err(e),
    }
}

} // verus!
