//! Static research catalog records and per-research progress.
//!
//! `ResearchField` and `Research` are immutable catalog entries handed to
//! the library at startup (the host parses them from its data files).
//! `ResearchProgress` is the one mutable record a started research owns.

use vstd::prelude::*;

verus! {

/// A research field: a display name and its identity key.
#[derive(Clone, Debug)]
pub struct ResearchField {
    pub name: String,
    pub id: String,
}

impl ResearchField {
    /// Builds a catalog field record.
    pub fn new(id: String, name: String) -> (r: Self)
        ensures
            r.id == id,
            r.name == name,
    {
        ResearchField { name, id }
    }

    /// Identity key of the field.
    pub fn get_id(&self) -> (r: &String)
        ensures
            r == &self.id,
    {
        &self.id
    }

    /// Display name of the field.
    pub fn get_name(&self) -> (r: &String)
        ensures
            r == &self.name,
    {
        &self.name
    }
}

/// A static research definition: identity, display name, owning field,
/// total cost in progress points, the two prerequisite id lists, and a
/// description for the info card.
#[derive(Clone, Debug)]
pub struct Research {
    pub name: String,
    pub id: String,
    pub cost: u32,
    pub field: String,
    pub required_any: Vec<String>,
    pub required_all: Vec<String>,
    pub description: String,
}

impl Research {
    /// Builds a catalog research record.
    pub fn new(
        id: String,
        name: String,
        cost: u32,
        field: String,
        required_all: Vec<String>,
        required_any: Vec<String>,
        description: String,
    ) -> (r: Self)
        ensures
            r.id == id,
            r.name == name,
            r.cost == cost,
            r.field == field,
            r.required_all == required_all,
            r.required_any == required_any,
            r.description == description,
    {
        Research { name, id, cost, field, required_any, required_all, description }
    }

    /// Identity key of the research.
    pub fn id(&self) -> (r: &String)
        ensures
            r == &self.id,
    {
        &self.id
    }

    /// Display name of the research.
    pub fn name(&self) -> (r: &String)
        ensures
            r == &self.name,
    {
        &self.name
    }

    /// Total cost in progress points.
    pub fn cost(&self) -> (r: u32)
        ensures
            r == self.cost,
    {
        self.cost
    }

    /// Identity key of the owning field.
    pub fn field(&self) -> (r: &String)
        ensures
            r == &self.field,
    {
        &self.field
    }

    /// Ids that must all be finished before this research unlocks.
    pub fn required_all(&self) -> (r: &Vec<String>)
        ensures
            r == &self.required_all,
    {
        &self.required_all
    }

    /// Ids of which at least one must be finished before this research
    /// unlocks (an empty list asks for nothing).
    pub fn required_any(&self) -> (r: &Vec<String>)
        ensures
            r == &self.required_any,
    {
        &self.required_any
    }

    /// Description shown on the info card.
    pub fn description(&self) -> (r: &String)
        ensures
            r == &self.description,
    {
        &self.description
    }
}

/// The mutable progress record of one started research.
#[derive(Clone, Debug)]
pub struct ResearchProgress {
    pub id: String,
    pub progress: u32,
    pub speed: u32,
    pub is_finished: bool,
}

impl ResearchProgress {
    /// A fresh record for a just-started research.
    pub fn for_research(research: &Research) -> (r: Self)
        ensures
            r.id == research.id,
            r.progress == 0,
            r.speed == 1,
            !r.is_finished,
    {
        ResearchProgress { id: research.id.clone(), progress: 0, speed: 1, is_finished: false }
    }

    /// The record after one tick against the given cost.
    pub open spec fn updated_spec(self, cost: u32) -> ResearchProgress {
        let np: u32 = if self.progress + self.speed <= cost {
            (self.progress + self.speed) as u32
        } else {
            cost
        };
        ResearchProgress {
            progress: np,
            is_finished: self.is_finished || np >= cost,
            ..self
        }
    }

    /// Advances the record by its speed, clamped at `cost`; a record that
    /// reaches the cost is marked finished.
    pub fn update(&mut self, cost: u32)
        ensures
            *final(self) == old(self).updated_spec(cost),
    {
        let np: u64 = self.progress as u64 + self.speed as u64;
        if np <= cost as u64 {
            self.progress = np as u32;
        } else {
            self.progress = cost;
        }
        if self.progress >= cost {
            self.is_finished = true;
        }
    }
}

} // verus!
