//! A transcription session driven from the GUI: status, languages, the
//! current texts and the finished utterances.
use vstd::prelude::*;

verus! {

/// Status of a transcription session.
#[derive(Clone, Copy, PartialEq, Eq, Structural, Debug)]
pub enum SessionStatus {
    Idle,
    Running,
    Paused,
    Error,
}

/// One finished utterance of a transcription session.
pub struct TranscriptionHistoryItem {
    pub id: String,
    pub source_text: String,
    pub translated_text: String,
    pub source_lang: String,
    pub target_lang: String,
    pub timestamp: String,
    pub loci_enhanced: bool,
}

impl Clone for TranscriptionHistoryItem {
    fn clone(&self) -> (c: Self)
        ensures
            c == *self,
    {
        TranscriptionHistoryItem {
            id: self.id.clone(),
            source_text: self.source_text.clone(),
            translated_text: self.translated_text.clone(),
            source_lang: self.source_lang.clone(),
            target_lang: self.target_lang.clone(),
            timestamp: self.timestamp.clone(),
            loci_enhanced: self.loci_enhanced,
        }
    }
}

/// A transcription session: its status, languages, the current source text
/// and translation, and its history.
pub struct TranscriptionSession {
    status: SessionStatus,
    source_lang: String,
    target_lang: String,
    input_device: Option<String>,
    current_source: String,
    current_translation: String,
    is_running: bool,
    history: Vec<TranscriptionHistoryItem>,
}

impl TranscriptionSession {
    pub closed spec fn status(&self) -> SessionStatus {
        self.status
    }

    pub closed spec fn running(&self) -> bool {
        self.is_running
    }

    pub closed spec fn current_source(&self) -> Seq<char> {
        self.current_source@
    }

    pub closed spec fn current_translation(&self) -> Seq<char> {
        self.current_translation@
    }

    pub closed spec fn history(&self) -> Seq<TranscriptionHistoryItem> {
        self.history@
    }

    pub open spec fn history_len(&self) -> nat {
        self.history().len()
    }

    pub closed spec fn languages(&self) -> (Seq<char>, Seq<char>) {
        (self.source_lang@, self.target_lang@)
    }

    pub fn new(source_lang: String, target_lang: String, input_device: Option<String>) -> (r:
        crate::error::AppResult<Self>)
        ensures
            r matches Ok(s) && s.status() == SessionStatus::Idle && !s.running()
                && s.current_source().len() == 0 && s.current_translation().len() == 0
                && s.history_len() == 0 && s.languages() == (source_lang@, target_lang@),
    {
        Ok(
            TranscriptionSession {
                status: SessionStatus::Idle,
                source_lang,
                target_lang,
                input_device,
                current_source: String::new(),
                current_translation: String::new(),
                is_running: false,
                history: Vec::new(),
            },
        )
    }

    pub fn start(&mut self) -> (r: crate::error::AppResult<()>)
        ensures
            r is Ok,
            final(self).status() == SessionStatus::Running,
            final(self).running(),
            final(self).current_source() == old(self).current_source(),
            final(self).current_translation() == old(self).current_translation(),
            final(self).history_len() == old(self).history_len(),
            final(self).languages() == old(self).languages(),
    {
        self.is_running = true;
        self.status = SessionStatus::Running;
        Ok(())
    }

    /// Stops the session and clears the current texts.
    pub fn stop(&mut self) -> (r: crate::error::AppResult<()>)
        ensures
            r is Ok,
            final(self).status() == SessionStatus::Idle,
            !final(self).running(),
            final(self).current_source().len() == 0,
            final(self).current_translation().len() == 0,
            final(self).history_len() == old(self).history_len(),
            final(self).languages() == old(self).languages(),
    {
        self.is_running = false;
        self.status = SessionStatus::Idle;
        self.current_source = String::new();
        self.current_translation = String::new();
        Ok(())
    }

    pub fn pause(&mut self)
        ensures
            final(self).status() == SessionStatus::Paused,
            final(self).running() == old(self).running(),
            final(self).current_source() == old(self).current_source(),
            final(self).current_translation() == old(self).current_translation(),
            final(self).history_len() == old(self).history_len(),
            final(self).languages() == old(self).languages(),
    {
        self.status = SessionStatus::Paused;
    }

    pub fn resume(&mut self)
        ensures
            final(self).status() == SessionStatus::Running,
            final(self).running() == old(self).running(),
            final(self).current_source() == old(self).current_source(),
            final(self).current_translation() == old(self).current_translation(),
            final(self).history_len() == old(self).history_len(),
            final(self).languages() == old(self).languages(),
    {
        self.status = SessionStatus::Running;
    }

    pub fn get_status(&self) -> (s: SessionStatus)
        ensures
            s == self.status(),
    {
        self.status
    }

    pub fn get_current_source(&self) -> (s: String)
        ensures
            s@ == self.current_source(),
    {
        self.current_source.clone()
    }

    pub fn get_current_translation(&self) -> (s: String)
        ensures
            s@ == self.current_translation(),
    {
        self.current_translation.clone()
    }

    /// A copy of the history, oldest first.
    pub fn get_history(&self) -> (h: Vec<TranscriptionHistoryItem>)
        ensures
            h@ == self.history(),
    {
        let mut h: Vec<TranscriptionHistoryItem> = Vec::new();
        let mut i: usize = 0;
        while i < self.history.len()
            invariant
                i <= self.history@.len(),
                h@ == self.history@.subrange(0, i as int),
            decreases self.history@.len() - i,
        {
            h.push(self.history[i].clone());
            assert(self.history@.subrange(0, i + 1) == self.history@.subrange(0, i as int).push(
                self.history@[i as int],
            ));
            i = i + 1;
        }
        assert(self.history@.subrange(0, self.history@.len() as int) == self.history@);
        h
    }
}

} // verus!
