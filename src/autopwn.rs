//! Progress of a streaming key-recovery run, folded event by event, and the
//! summary recorded when it ends.

use vstd::prelude::*;

use crate::text::{append_str, cat, dec, dec_string};
use crate::types::{AutopwnEvent, CardType, ProcessPhase};

verus! {

/// What is known of a key-recovery run so far.
pub struct AutopwnProgress {
    pub phase: ProcessPhase,
    pub keys_found: u32,
    pub keys_total: u32,
    pub dump_file: Option<String>,
    pub dump_complete: bool,
    pub dump_partial: bool,
}

/// Keys of a card: two per sector, 16 sectors on 1K, 40 on 4K.
pub open spec fn keys_total_spec(ct: CardType) -> u32 {
    if ct is MifareClassic4K {
        80
    } else {
        32
    }
}

impl AutopwnProgress {
    pub fn new(card_type: &CardType) -> (r: AutopwnProgress)
        ensures
            r.phase == ProcessPhase::KeyCheck,
            r.keys_found == 0,
            r.keys_total == keys_total_spec(*card_type),
            r.dump_file is None,
            !r.dump_complete,
            !r.dump_partial,
    {
        let keys_total: u32 = match card_type {
            CardType::MifareClassic4K => 80,
            _ => 32,
        };
        AutopwnProgress {
            phase: ProcessPhase::KeyCheck,
            keys_found: 0,
            keys_total,
            dump_file: None,
            dump_complete: false,
            dump_partial: false,
        }
    }

    /// Folds one event into the progress. Dictionary progress sets both
    /// counters; a recovered key adds one; attack starts set the phase; dump
    /// events mark the dump and keep a non-empty file path.
    pub fn apply(&mut self, event: AutopwnEvent)
        ensures
            match event {
                AutopwnEvent::DictionaryProgress { found, total } => final(self).keys_found == found
                    && final(self).keys_total == total && final(self).phase == ProcessPhase::KeyCheck,
                AutopwnEvent::KeyFound { .. } => final(self).keys_found == (if old(self).keys_found
                    < u32::MAX {
                    old(self).keys_found + 1
                } else {
                    old(self).keys_found as int
                }) && final(self).phase == old(self).phase,
                AutopwnEvent::DarksideStarted => final(self).phase == ProcessPhase::Darkside,
                AutopwnEvent::NestedStarted => final(self).phase == ProcessPhase::Nested,
                AutopwnEvent::HardnestedStarted => final(self).phase == ProcessPhase::Hardnested,
                AutopwnEvent::StaticnestedStarted => final(self).phase
                    == ProcessPhase::StaticNested,
                AutopwnEvent::DumpComplete { file_path } => final(self).dump_complete
                    && final(self).phase == ProcessPhase::Dumping && (file_path@.len() > 0
                    ==> final(self).dump_file == Some(file_path)),
                AutopwnEvent::DumpPartial { file_path } => final(self).dump_partial
                    && final(self).phase == ProcessPhase::Dumping && (file_path@.len() > 0
                    ==> final(self).dump_file == Some(file_path)),
                _ => final(self).phase == old(self).phase && final(self).keys_found == old(
                    self,
                ).keys_found,
            },
    {
        match event {
            AutopwnEvent::DictionaryProgress { found, total } => {
                self.phase = ProcessPhase::KeyCheck;
                self.keys_found = found;
                self.keys_total = total;
            },
            AutopwnEvent::KeyFound { .. } => {
                if self.keys_found < u32::MAX {
                    self.keys_found = self.keys_found + 1;
                }
            },
            AutopwnEvent::DarksideStarted => {
                self.phase = ProcessPhase::Darkside;
            },
            AutopwnEvent::NestedStarted => {
                self.phase = ProcessPhase::Nested;
            },
            AutopwnEvent::HardnestedStarted => {
                self.phase = ProcessPhase::Hardnested;
            },
            AutopwnEvent::StaticnestedStarted => {
                self.phase = ProcessPhase::StaticNested;
            },
            AutopwnEvent::DumpComplete { file_path } => {
                self.dump_complete = true;
                if file_path.unicode_len() > 0 {
                    self.dump_file = Some(file_path);
                }
                self.phase = ProcessPhase::Dumping;
            },
            AutopwnEvent::DumpPartial { file_path } => {
                self.dump_partial = true;
                if file_path.unicode_len() > 0 {
                    self.dump_file = Some(file_path);
                }
                self.phase = ProcessPhase::Dumping;
            },
            AutopwnEvent::Failed { .. } | AutopwnEvent::Finished { .. } => {},
        }
    }

    /// The summary recorded when the run ends.
    pub fn dump_info(&self) -> (r: String)
        ensures
            self.dump_complete ==> r@ == "All keys recovered ("@ + dec(self.keys_found as nat)
                + "/"@ + dec(self.keys_total as nat) + "). Full dump saved."@,
            !self.dump_complete && self.dump_partial ==> r@ == "Partial key recovery ("@ + dec(
                self.keys_found as nat,
            ) + "/"@ + dec(self.keys_total as nat) + "). Partial dump saved."@,
            !self.dump_complete && !self.dump_partial && self.keys_found > 0 ==> r@
                == "Keys recovered: "@ + dec(self.keys_found as nat) + "/"@ + dec(
                self.keys_total as nat,
            ) + "."@,
            !self.dump_complete && !self.dump_partial && self.keys_found == 0 ==> r@
                == "Key recovery completed."@,
    {
        if !self.dump_complete && !self.dump_partial && self.keys_found == 0 {
            return String::from_str("Key recovery completed.");
        }
        let (head, tail) = if self.dump_complete {
            ("All keys recovered (", "). Full dump saved.")
        } else if self.dump_partial {
            ("Partial key recovery (", "). Partial dump saved.")
        } else {
            ("Keys recovered: ", ".")
        };
        let mut s = cat(head, dec_string(self.keys_found as u64).as_str());
        append_str(&mut s, "/");
        append_str(&mut s, dec_string(self.keys_total as u64).as_str());
        append_str(&mut s, tail);
        s
    }
}

/// The name of a phase as progress events show it.
pub open spec fn phase_name_spec(p: ProcessPhase) -> Seq<char> {
    match p {
        ProcessPhase::KeyCheck => "KeyCheck"@,
        ProcessPhase::Darkside => "Darkside"@,
        ProcessPhase::Nested => "Nested"@,
        ProcessPhase::Hardnested => "Hardnested"@,
        ProcessPhase::StaticNested => "StaticNested"@,
        ProcessPhase::Dumping => "Dumping"@,
    }
}

pub fn phase_name(p: &ProcessPhase) -> (r: &'static str)
    ensures
        r@ == phase_name_spec(*p),
{
    match p {
        ProcessPhase::KeyCheck => "KeyCheck",
        ProcessPhase::Darkside => "Darkside",
        ProcessPhase::Nested => "Nested",
        ProcessPhase::Hardnested => "Hardnested",
        ProcessPhase::StaticNested => "StaticNested",
        ProcessPhase::Dumping => "Dumping",
    }
}

} // verus!
