//! The enrichment of one record as a state machine: it asks for outside work
//! (a geocoding query, a look in the audio store, a synthesis, a write) and
//! decides on each answer.

use vstd::prelude::*;
use crate::audio::{artifact_path_for, base64_decoded, decode_audio, synthesis_request, synthesis_request_for};
use crate::error::EnrichError;
use crate::geo::{resolution_of, resolve_coordinates, PlaceMatch};
use crate::record::CountryCapital;

verus! {

/// Which of a record's two texts an audio step is about.
#[derive(Debug, Clone, Copy, PartialEq, Eq, Structural)]
pub enum AudioSlot {
    Country,
    Capital,
}

/// Where an enrichment stands.
#[derive(Debug, Clone, Copy, PartialEq, Eq, Structural)]
pub enum Phase {
    /// Waiting for the geocoding answer.
    Locate,
    /// Waiting to learn whether the slot's artifact is already stored.
    Check(AudioSlot),
    /// Waiting for the synthesized audio of the slot's text.
    Synthesize(AudioSlot),
    /// Waiting for the slot's artifact to be written.
    Store(AudioSlot),
    /// The record is complete.
    Done,
    /// The record cannot be completed.
    Failed(EnrichError),
}

/// Outside work that the caller performs and answers with an `Event`.
#[derive(Debug)]
pub enum Action {
    /// Query the geocoding provider for a city in a country; answer `Matches`.
    Geocode { city: String, country_code: String },
    /// Look whether a file exists at `path`; answer `AudioExists`.
    CheckAudio { path: String },
    /// Send this synthesis request body; answer `Synthesized` with the base64
    /// audio content.
    Synthesize { request: String },
    /// Write the bytes to `path`, creating its directory; answer `Stored`.
    StoreAudio { path: String, bytes: Vec<u8> },
}

/// The answer to an `Action`.
#[derive(Debug)]
pub enum Event {
    Matches(Vec<PlaceMatch>),
    AudioExists(bool),
    Synthesized(String),
    Stored,
}

#[derive(Debug)]
pub struct Enrichment {
    pub record: CountryCapital,
    pub phase: Phase,
    /// Where the artifact of the country's name lives.
    pub country_path: String,
    /// Where the artifact of the capital's name lives.
    pub capital_path: String,
}

/// The fields that come from the input row agree.
pub open spec fn same_source(a: CountryCapital, b: CountryCapital) -> bool {
    &&& a.id == b.id
    &&& a.country == b.country
    &&& a.country_long == b.country_long
    &&& a.country_code == b.country_code
    &&& a.country_code_3 == b.country_code_3
    &&& a.capital == b.capital
    &&& a.independent == b.independent
    &&& a.member_of_un == b.member_of_un
}

/// A record as parsed, before any enrichment.
pub open spec fn is_fresh(r: CountryCapital) -> bool {
    r.coordinate is None && r.country_audio_filename is None && r.capital_audio_filename is None
}

/// Whether `ev` answers what the phase waits for.
pub open spec fn answers(phase: Phase, ev: Event) -> bool {
    match (phase, ev) {
        (Phase::Locate, Event::Matches(_)) => true,
        (Phase::Check(_), Event::AudioExists(_)) => true,
        (Phase::Synthesize(_), Event::Synthesized(_)) => true,
        (Phase::Store(_), Event::Stored) => true,
        _ => false,
    }
}

impl Enrichment {
    pub open spec fn slot_text(&self, s: AudioSlot) -> String {
        match s {
            AudioSlot::Country => self.record.country,
            AudioSlot::Capital => self.record.capital,
        }
    }

    pub open spec fn slot_path(&self, s: AudioSlot) -> String {
        match s {
            AudioSlot::Country => self.country_path,
            AudioSlot::Capital => self.capital_path,
        }
    }

    /// The record's enrichment fields match the phase: nothing merged before
    /// the coordinate, both audio paths merged together and only at the end.
    pub open spec fn wf(&self) -> bool {
        &&& self.record.wf()
        &&& match self.phase {
            Phase::Locate => is_fresh(self.record),
            Phase::Done => self.record.coordinate is Some && self.record.country_audio_filename
                == Some(self.country_path) && self.record.capital_audio_filename == Some(
                self.capital_path,
            ),
            Phase::Failed(_) => self.record.country_audio_filename is None
                && self.record.capital_audio_filename is None,
            _ => self.record.coordinate is Some && self.record.country_audio_filename is None
                && self.record.capital_audio_filename is None,
        }
    }

    /// The slot's artifact is in place: go on to the capital, or finish.
    pub open spec fn after_slot(old: Enrichment, new: Enrichment, s: AudioSlot, a: Option<Action>) -> bool {
        match s {
            AudioSlot::Country => new.phase == Phase::Check(AudioSlot::Capital) && new.record
                == old.record && a == Some(Action::CheckAudio { path: old.capital_path }),
            AudioSlot::Capital => {
                &&& new.phase == Phase::Done
                &&& same_source(new.record, old.record)
                &&& new.record.coordinate == old.record.coordinate
                &&& new.record.country_audio_filename == Some(old.country_path)
                &&& new.record.capital_audio_filename == Some(old.capital_path)
                &&& a is None
            },
        }
    }

    /// The step that `ev` takes from `old` to `new`, handing out `a` (`None`
    /// once the enrichment has ended).
    pub open spec fn is_step(old: Enrichment, ev: Event, new: Enrichment, a: Option<Action>) -> bool {
        &&& new.country_path == old.country_path
        &&& new.capital_path == old.capital_path
        &&& match (old.phase, ev) {
            (Phase::Locate, Event::Matches(m)) => match resolution_of(m@) {
                Ok((lat, lon)) => {
                    &&& new.phase == Phase::Check(AudioSlot::Country)
                    &&& same_source(new.record, old.record)
                    &&& new.record.country_audio_filename == old.record.country_audio_filename
                    &&& new.record.capital_audio_filename == old.record.capital_audio_filename
                    &&& new.record.coordinate matches Some(c) && c.lat@ == lat && c.lon@ == lon
                    &&& a == Some(Action::CheckAudio { path: old.country_path })
                },
                Err(e) => new.phase == Phase::Failed(e) && new.record == old.record && a is None,
            },
            (Phase::Check(s), Event::AudioExists(true)) => Self::after_slot(old, new, s, a),
            (Phase::Check(s), Event::AudioExists(false)) => {
                &&& new.phase == Phase::Synthesize(s)
                &&& new.record == old.record
                &&& a matches Some(Action::Synthesize { request }) && request@ == synthesis_request(
                    old.slot_text(s)@,
                )
            },
            (Phase::Synthesize(s), Event::Synthesized(c)) => match base64_decoded(c@) {
                Some(b) => {
                    &&& new.phase == Phase::Store(s)
                    &&& new.record == old.record
                    &&& a matches Some(Action::StoreAudio { path, bytes }) && path == old.slot_path(s)
                        && bytes@ == b
                },
                None => new.phase == Phase::Failed(EnrichError::Decode) && new.record == old.record
                    && a is None,
            },
            (Phase::Store(s), Event::Stored) => Self::after_slot(old, new, s, a),
            _ => false,
        }
    }

    /// Starts the enrichment of a freshly parsed record whose artifacts live
    /// in `dir`.
    pub fn new(record: CountryCapital, dir: &str) -> (r: Enrichment)
        requires
            record.wf(),
            is_fresh(record),
        ensures
            r.wf(),
            r.record == record,
            r.phase == Phase::Locate,
            r.country_path@ == crate::audio::artifact_path(dir@, record.country@),
            r.capital_path@ == crate::audio::artifact_path(dir@, record.capital@),
    {
        let country_path = artifact_path_for(dir, record.country.as_str());
        let capital_path = artifact_path_for(dir, record.capital.as_str());
        Enrichment { record, phase: Phase::Locate, country_path, capital_path }
    }

    /// The first outside work: geocode the capital within the country.
    pub fn first_action(&self) -> (a: Action)
        ensures
            a == (Action::Geocode {
                city: self.record.capital,
                country_code: self.record.country_code,
            }),
    {
        Action::Geocode {
            city: self.record.capital.clone(),
            country_code: self.record.country_code.clone(),
        }
    }

    /// Whether `ev` answers what this enrichment waits for.
    pub fn accepts(&self, ev: &Event) -> (r: bool)
        ensures
            r == answers(self.phase, *ev),
    {
        match (self.phase, ev) {
            (Phase::Locate, Event::Matches(_)) => true,
            (Phase::Check(_), Event::AudioExists(_)) => true,
            (Phase::Synthesize(_), Event::Synthesized(_)) => true,
            (Phase::Store(_), Event::Stored) => true,
            _ => false,
        }
    }

    /// Whether the record is complete.
    pub fn is_done(&self) -> (r: bool)
        ensures
            r == (self.phase == Phase::Done),
    {
        match self.phase {
            Phase::Done => true,
            _ => false,
        }
    }

    fn finish_slot(&mut self, s: AudioSlot) -> (a: Option<Action>)
        requires
            old(self).wf(),
            old(self).record.coordinate is Some,
            old(self).record.country_audio_filename is None,
            old(self).record.capital_audio_filename is None,
        ensures
            final(self).wf(),
            final(self).country_path == old(self).country_path,
            final(self).capital_path == old(self).capital_path,
            Self::after_slot(*old(self), *final(self), s, a),
    {
        match s {
            AudioSlot::Country => {
                self.phase = Phase::Check(AudioSlot::Capital);
                Some(Action::CheckAudio { path: self.capital_path.clone() })
            },
            AudioSlot::Capital => {
                let country_path = self.country_path.clone();
                let capital_path = self.capital_path.clone();
                self.record.set_audio_filenames(country_path, capital_path);
                self.phase = Phase::Done;
                None
            },
        }
    }

    /// Takes the answer to the last action and hands out the next one, or
    /// `None` once the record is complete or has failed.
    pub fn step(&mut self, ev: Event) -> (a: Option<Action>)
        requires
            old(self).wf(),
            answers(old(self).phase, ev),
        ensures
            final(self).wf(),
            Self::is_step(*old(self), ev, *final(self), a),
    {
        match ev {
            Event::Matches(m) => match resolve_coordinates(&m) {
                Ok(c) => {
                    self.record.set_latlong(c);
                    self.phase = Phase::Check(AudioSlot::Country);
                    Some(Action::CheckAudio { path: self.country_path.clone() })
                },
                Err(e) => {
                    self.phase = Phase::Failed(e);
                    None
                },
            },
            Event::AudioExists(exists) => {
                let s = match self.phase {
                    Phase::Check(s) => s,
                    _ => AudioSlot::Country,
                };
                if exists {
                    self.finish_slot(s)
                } else {
                    let request = match s {
                        AudioSlot::Country => synthesis_request_for(self.record.country.as_str()),
                        AudioSlot::Capital => synthesis_request_for(self.record.capital.as_str()),
                    };
                    self.phase = Phase::Synthesize(s);
                    Some(Action::Synthesize { request })
                }
            },
            Event::Synthesized(content) => {
                let s = match self.phase {
                    Phase::Synthesize(s) => s,
                    _ => AudioSlot::Country,
                };
                match decode_audio(content.as_str()) {
                    Ok(bytes) => {
                        let path = match s {
                            AudioSlot::Country => self.country_path.clone(),
                            AudioSlot::Capital => self.capital_path.clone(),
                        };
                        self.phase = Phase::Store(s);
                        Some(Action::StoreAudio { path, bytes })
                    },
                    Err(e) => {
                        self.phase = Phase::Failed(e);
                        None
                    },
                }
            },
            Event::Stored => {
                let s = match self.phase {
                    Phase::Store(s) => s,
                    _ => AudioSlot::Country,
                };
                self.finish_slot(s)
            },
        }
    }
}

/// A text whose artifact is already stored is never synthesized again: when
/// the store answers that the artifact exists, the next action is no
/// synthesis, and the slot ends with the same path it would have had after a
/// synthesis.
pub proof fn lemma_stored_text_not_synthesized(
    old: Enrichment,
    s: AudioSlot,
    new: Enrichment,
    a: Option<Action>,
)
    requires
        old.phase == Phase::Check(s),
        Enrichment::is_step(old, Event::AudioExists(true), new, a),
    ensures
        !(a matches Some(Action::Synthesize { .. })),
        !(new.phase is Synthesize),
        new.country_path == old.country_path,
        new.capital_path == old.capital_path,
{
}

/// A synthesis is asked for only after the store answered that the slot's
/// artifact is absent.
pub proof fn lemma_synthesis_only_when_absent(old: Enrichment, ev: Event, new: Enrichment, a: Option<Action>)
    requires
        Enrichment::is_step(old, ev, new, a),
        a matches Some(Action::Synthesize { .. }),
    ensures
        old.phase is Check,
        ev == Event::AudioExists(false),
{
}

/// A geocoding answer with no match fails the record with `NotFound`, and
/// nothing is merged into it.
pub proof fn lemma_no_match_fails(old: Enrichment, m: Vec<PlaceMatch>, new: Enrichment, a: Option<Action>)
    requires
        old.wf(),
        old.phase == Phase::Locate,
        m@.len() == 0,
        Enrichment::is_step(old, Event::Matches(m), new, a),
    ensures
        new.phase == Phase::Failed(EnrichError::NotFound),
        a is None,
        new.record == old.record,
        is_fresh(new.record),
{
}

} // verus!
