//! A model of the relay's one destination file, capturing the persister's
//! contract: a save creates or truncates the file and writes the full
//! payload, so a read after a successful save yields exactly the payload
//! written, and across overlapping writes the last writer wins. The
//! surrounding process performs the real filesystem write; this model is
//! what the relay's laws and tests run against.

use vstd::prelude::*;

verus! {

/// What the file holds after a save of `payload`, whatever it held before:
/// exactly the payload, in full.
pub open spec fn saved(prior: Option<Seq<u8>>, payload: Seq<u8>) -> Option<Seq<u8>> {
    Some(payload)
}

/// The destination file: absent until the first save, then the bytes of
/// the latest fully-written payload.
#[derive(Debug)]
pub struct FileStore {
    contents: Option<Vec<u8>>,
}

impl View for FileStore {
    type V = Option<Seq<u8>>;

    closed spec fn view(&self) -> Option<Seq<u8>> {
        match self.contents {
            Some(v) => Some(v@),
            None => None,
        }
    }
}

impl FileStore {
    /// A destination that no tick has written yet.
    pub fn new() -> (r: FileStore)
        ensures
            r@ is None,
    {
        FileStore { contents: None }
    }

    /// Write a payload: create or truncate, then the full payload.
    pub fn save(&mut self, payload: Vec<u8>)
        ensures
            final(self)@ == saved(old(self)@, payload@),
    {
        self.contents = Some(payload);
    }

    /// Read the file back: exactly what the latest save left, or nothing
    /// if no save ever succeeded.
    pub fn read(&self) -> (r: Option<&Vec<u8>>)
        ensures
            r matches Some(v) ==> self@ == Some(v@),
            r is None ==> self@ is None,
    {
        match &self.contents {
            Some(v) => Some(v),
            None => None,
        }
    }
}

/// Law (round trip): after a save of payload `p`, the file holds exactly
/// `p`, byte for byte, whatever it held before — so a read after the save
/// yields `p`.
pub proof fn lemma_save_read_round_trip(prior: Option<Seq<u8>>, p: Seq<u8>)
    ensures
        saved(prior, p) == Some(p),
{
}

/// Law (last writer wins): two saves in a row leave the second payload,
/// whatever the first wrote.
pub proof fn lemma_last_writer_wins(prior: Option<Seq<u8>>, p1: Seq<u8>, p2: Seq<u8>)
    ensures
        saved(saved(prior, p1), p2) == Some(p2),
{
}

} // verus!
