//! HF clone decisions: the command sequence that writes a dump to each
//! magic blank family, the checks on write output, and dump comparison.

use vstd::prelude::*;

use crate::command_builder::{
    build_iclass_restore, build_mf_cload, build_mf_gen2_config_force, build_mf_gen2_config_reset,
    build_mf_gen3blk, build_mf_gen3uid, build_mf_gload, build_mf_restore, build_mf_wrbl0,
    build_mfu_restore, iclass_restore_cmd, mf_cload_cmd, mf_gen3blk_cmd, mf_gen3uid_cmd,
    mf_gload_cmd, mf_restore_cmd, mf_wrbl0_cmd, mfu_restore_cmd,
};
use crate::text::{upper_of,
    append_str, cat, chars_of, contains, is_hex_char, keep_hex, lines_of, push_char, trim,
};
use crate::types::{AppError, BlankType, CardType};

verus! {

/// One command of a write sequence, with the progress recorded before it
/// runs and whether its output is checked for an error marker.
pub struct WriteCommand {
    pub command: String,
    pub checked: bool,
    pub progress_permille: u16,
    pub step: u16,
    pub total_steps: u16,
}

pub open spec fn commands_of(plan: Seq<WriteCommand>) -> Seq<Seq<char>> {
    plan.map_values(|c: WriteCommand| c.command@)
}

/// The commands that write a dump to a blank: one load for the backdoor
/// generations, Ultralight and iCLASS; for Gen2 a forced configuration,
/// block 0 written with the default key, a restore and a configuration
/// reset; for Gen3 the UID, block 0, then a restore.
pub open spec fn write_plan_spec(
    blank: BlankType,
    dump: Seq<char>,
    uid_hex: Seq<char>,
    block0: Seq<char>,
) -> Option<Seq<Seq<char>>> {
    match blank {
        BlankType::MagicMifareGen1a | BlankType::MagicMifareGen4GDM => Some(seq![mf_cload_cmd(dump)]),
        BlankType::MagicMifareGen4GTU => Some(seq![mf_gload_cmd(dump)]),
        BlankType::MagicUltralight => Some(seq![mfu_restore_cmd(dump)]),
        BlankType::IClassBlank => Some(seq![iclass_restore_cmd(dump)]),
        BlankType::MagicMifareGen2 => Some(
            seq![
                "hf 14a config --atqa force --bcc ignore --cl2 skip --rats skip"@,
                mf_wrbl0_cmd("FFFFFFFFFFFF"@, block0),
                mf_restore_cmd(dump),
                "hf 14a config --std"@,
            ],
        ),
        BlankType::MagicMifareGen3 => Some(
            seq![mf_gen3uid_cmd(uid_hex), mf_gen3blk_cmd(block0), mf_restore_cmd(dump)],
        ),
        _ => None,
    }
}

fn plan_step(command: String, checked: bool, progress_permille: u16, step: u16, total_steps: u16) -> (r:
    WriteCommand)
    ensures
        r.command == command,
{
    WriteCommand { command, checked, progress_permille, step, total_steps }
}

/// The write sequence for `blank`. `source_uid` keeps only its hex digits;
/// `block0` is the hex of the dump's first block.
pub fn hf_write_plan(blank: &BlankType, dump_path: &str, source_uid: &str, block0: &str) -> (r:
    Result<Vec<WriteCommand>, AppError>)
    ensures
        match write_plan_spec(
            *blank,
            dump_path@,
            crate::text::hex_only(source_uid@),
            block0@,
        ) {
            Some(p) => r is Ok && commands_of(r->Ok_0@) == p,
            None => r is Err && r->Err_0 is CommandFailed,
        },
{
    let mut plan: Vec<WriteCommand> = Vec::new();
    match blank {
        BlankType::MagicMifareGen1a | BlankType::MagicMifareGen4GDM => {
            plan.push(plan_step(build_mf_cload(dump_path), true, 300, 1, 2));
        },
        BlankType::MagicMifareGen4GTU => {
            plan.push(plan_step(build_mf_gload(dump_path), true, 300, 1, 2));
        },
        BlankType::MagicUltralight => {
            plan.push(plan_step(build_mfu_restore(dump_path), true, 300, 1, 2));
        },
        BlankType::IClassBlank => {
            plan.push(plan_step(build_iclass_restore(dump_path), true, 300, 1, 2));
        },
        BlankType::MagicMifareGen2 => {
            // Block 0 is writable only while the 14a configuration is forced.
            plan.push(plan_step(String::from_str(build_mf_gen2_config_force()), false, 100, 1, 5));
            plan.push(plan_step(build_mf_wrbl0("FFFFFFFFFFFF", block0), true, 300, 2, 5));
            plan.push(plan_step(build_mf_restore(dump_path), true, 600, 3, 5));
            plan.push(plan_step(String::from_str(build_mf_gen2_config_reset()), false, 850, 4, 5));
        },
        BlankType::MagicMifareGen3 => {
            let uid = keep_hex(source_uid);
            plan.push(plan_step(build_mf_gen3uid(uid.as_str()), true, 100, 1, 4));
            plan.push(plan_step(build_mf_gen3blk(block0), true, 350, 2, 4));
            plan.push(plan_step(build_mf_restore(dump_path), true, 650, 3, 4));
        },
        _ => {
            let mut m = String::from_str("Unsupported HF blank type: ");
            append_str(&mut m, crate::blank::blank_variant_name(blank));
            return Err(AppError::CommandFailed(m));
        },
    }
    assert(commands_of(plan@) =~= write_plan_spec(
        *blank,
        dump_path@,
        crate::text::hex_only(source_uid@),
        block0@,
    )->0);
    Ok(plan)
}

/// Upper-case hex digit of a nibble.
pub open spec fn hex_digit(n: nat) -> char {
    if n < 10 {
        crate::text::digit_char(n)
    } else if n == 10 {
        'A'
    } else if n == 11 {
        'B'
    } else if n == 12 {
        'C'
    } else if n == 13 {
        'D'
    } else if n == 14 {
        'E'
    } else {
        'F'
    }
}

/// Two upper-case hex digits per byte.
pub open spec fn hex_of(b: Seq<u8>) -> Seq<char>
    decreases b.len(),
{
    if b.len() == 0 {
        Seq::empty()
    } else {
        hex_of(b.drop_last()) + seq![hex_digit((b.last() / 16) as nat), hex_digit((b.last() % 16) as nat)]
    }
}

fn hex_digit_exec(n: u8) -> (c: char)
    requires
        n < 16,
    ensures
        c == hex_digit(n as nat),
{
    if n < 10 {
        if n == 0 { '0' } else if n == 1 { '1' } else if n == 2 { '2' } else if n == 3 { '3' }
        else if n == 4 { '4' } else if n == 5 { '5' } else if n == 6 { '6' } else if n == 7 { '7' }
        else if n == 8 { '8' } else { '9' }
    } else if n == 10 {
        'A'
    } else if n == 11 {
        'B'
    } else if n == 12 {
        'C'
    } else if n == 13 {
        'D'
    } else if n == 14 {
        'E'
    } else {
        'F'
    }
}

/// Block 0 of a dump as 32 upper-case hex digits; the dump must hold at
/// least 16 bytes.
pub fn block0_hex(data: &Vec<u8>) -> (r: Result<String, AppError>)
    ensures
        data@.len() < 16 <==> r is Err,
        r is Ok ==> r->Ok_0@ == hex_of(data@.take(16)),
{
    if data.len() < 16 {
        let mut m = String::from_str("Dump file too small (");
        append_str(&mut m, crate::text::dec_string(data.len() as u64).as_str());
        append_str(&mut m, " bytes, need at least 16)");
        return Err(AppError::CommandFailed(m));
    }
    let mut s = String::new();
    let mut i: usize = 0;
    while i < 16
        invariant
            i <= 16,
            16 <= data.len(),
            s@ == hex_of(data@.take(i as int)),
        decreases 16 - i,
    {
        let b = data[i];
        push_char(&mut s, hex_digit_exec(b / 16));
        push_char(&mut s, hex_digit_exec(b % 16));
        assert(data@.take(i + 1).drop_last() =~= data@.take(i as int));
        i = i + 1;
    }
    Ok(s)
}

/// The first of `ls[i..]` that holds the error marker.
pub open spec fn first_marked_line(ls: Seq<Seq<char>>, i: int) -> Option<Seq<char>>
    decreases ls.len() - i,
{
    if i < 0 || i >= ls.len() {
        None
    } else if crate::text::seq_contains(ls[i], "[!!]"@) {
        Some(ls[i])
    } else {
        first_marked_line(ls, i + 1)
    }
}

/// A write command's output is refused when it holds the error marker; the
/// error quotes the first line that holds it, trimmed.
pub fn check_write_output(output: &str) -> (r: Result<(), AppError>)
    ensures
        r is Ok <==> !crate::text::seq_contains(output@, "[!!]"@),
        r is Err ==> r->Err_0 is CommandFailed && r->Err_0->CommandFailed_0@ == "PM3 write error: "@
            + match first_marked_line(crate::text::lines_spec(output@), 0) {
            Some(l) => crate::text::trim_spec(l),
            None => "Unknown error"@,
        },
{
    let v = chars_of(output);
    if !contains(&v, "[!!]") {
        return Ok(());
    }
    let lines = lines_of(output);
    let ghost ls = crate::text::lines_spec(output@);
    let mut i: usize = 0;
    while i < lines.len()
        invariant
            i <= lines.len(),
            crate::text::seq_contains(output@, "[!!]"@),
            crate::text::views(lines@) == ls,
            ls == crate::text::lines_spec(output@),
            first_marked_line(ls, 0) == first_marked_line(ls, i as int),
        decreases lines.len() - i,
    {
        assert(ls[i as int] == lines@[i as int]@);
        let lv = chars_of(lines[i].as_str());
        if contains(&lv, "[!!]") {
            let t = trim(lines[i].as_str());
            return Err(AppError::CommandFailed(cat("PM3 write error: ", t.as_str())));
        }
        i = i + 1;
    }
    assert(crate::text::views(lines@).len() == lines@.len());
    Err(AppError::CommandFailed(cat("PM3 write error: ", "Unknown error")))
}

/// Whether block `i` of size `bs` differs between two dumps.
pub open spec fn block_differs(a: Seq<u8>, b: Seq<u8>, bs: int, i: int) -> bool {
    a.subrange(i * bs, i * bs + bs) != b.subrange(i * bs, i * bs + bs)
}

/// The indices below `n` of the blocks that differ, in order.
pub open spec fn differing_blocks(a: Seq<u8>, b: Seq<u8>, bs: int, n: int) -> Seq<u16>
    decreases n,
{
    if n <= 0 {
        Seq::empty()
    } else {
        differing_blocks(a, b, bs, n - 1) + (if block_differs(a, b, bs, n - 1) {
            seq![(n - 1) as u16]
        } else {
            Seq::empty()
        })
    }
}

/// The blocks (of `block_size` bytes, over the length both dumps share)
/// that differ between the source dump and the read-back; empty when
/// either dump is empty or the block size is zero.
pub fn compare_dumps(source: &Vec<u8>, readback: &Vec<u8>, block_size: usize) -> (r: Vec<u16>)
    ensures
        source@.len() == 0 || readback@.len() == 0 || block_size == 0 ==> r@.len() == 0,
        source@.len() > 0 && readback@.len() > 0 && block_size > 0 ==> r@ == differing_blocks(
            source@,
            readback@,
            block_size as int,
            (if source@.len() < readback@.len() {
                source@.len()
            } else {
                readback@.len()
            }) as int / block_size as int,
        ),
{
    let mut out: Vec<u16> = Vec::new();
    if source.len() == 0 || readback.len() == 0 || block_size == 0 {
        return out;
    }
    let len = if source.len() < readback.len() {
        source.len()
    } else {
        readback.len()
    };
    let blocks = len / block_size;
    assert(blocks * block_size <= len) by (nonlinear_arith)
        requires
            blocks == len / block_size,
            block_size > 0,
    ;
    let mut i: usize = 0;
    while i < blocks
        invariant
            i <= blocks,
            blocks * block_size <= len,
            len <= source.len(),
            len <= readback.len(),
            block_size > 0,
            out@ == differing_blocks(source@, readback@, block_size as int, i as int),
        decreases blocks - i,
    {
        assert((i + 1) * block_size <= blocks * block_size) by (nonlinear_arith)
            requires
                i + 1 <= blocks,
        ;
        assert((i + 1) * block_size == i * block_size + block_size) by (nonlinear_arith);
        let start = i * block_size;
        let mut k: usize = 0;
        let mut same = true;
        while k < block_size
            invariant
                start == i * block_size,
                start + block_size <= len,
                len <= source.len(),
                len <= readback.len(),
                k <= block_size,
                same == forall|j: int| 0 <= j < k ==> #[trigger] source@[start + j] == readback@[start + j],
            decreases block_size - k,
        {
            if source[start + k] != readback[start + k] {
                same = false;
            }
            k = k + 1;
        }
        proof {
            let sa = source@.subrange(start as int, start + block_size);
            let sb = readback@.subrange(start as int, start + block_size);
            if same {
                assert forall|j: int| 0 <= j < block_size implies sa[j] == sb[j] by {
                    assert(source@[start + j] == readback@[start + j]);
                }
                assert(sa =~= sb);
            } else {
                let j = choose|j: int| 0 <= j < block_size && #[trigger] source@[start + j] != readback@[start + j];
                assert(sa[j] != sb[j]);
            }
        }
        if !same {
            out.push(i as u16);
        }
        assert(out@ =~= differing_blocks(source@, readback@, block_size as int, i + 1));
        i = i + 1;
    }
    out
}

/// A UID normalised for comparison: its hex digits, upper-cased.
pub open spec fn uid_key(u: Seq<char>) -> Seq<char> {
    crate::text::upper_of(crate::text::hex_only(u))
}

/// Whether the UID read back from the clone is the source's, ignoring
/// separators and case.
pub fn hf_uid_matches(source_uid: &str, detected_uid: &str) -> (r: bool)
    ensures
        r == (uid_key(source_uid@) == uid_key(detected_uid@)),
{
    let a = keep_hex(source_uid);
    let b = keep_hex(detected_uid);
    let ua = crate::text::to_upper(a.as_str());
    let ub = crate::text::to_upper(b.as_str());
    crate::text::str_eq(ua.as_str(), ub.as_str())
}

/// The read-back command and block size used to verify a blank family;
/// `None` where verification rests on the UID alone.
pub fn readback_plan(blank: &BlankType) -> (r: Option<(&'static str, usize)>)
    ensures
        match *blank {
            BlankType::MagicMifareGen1a => r is Some && r.unwrap().0@ == "hf mf cview"@ && r.unwrap().1 == 16,
            BlankType::MagicMifareGen2 | BlankType::MagicMifareGen3
            | BlankType::MagicMifareGen4GTU | BlankType::MagicMifareGen4GDM => r is Some
                && r.unwrap().0@ == "hf mf dump"@ && r.unwrap().1 == 16,
            BlankType::MagicUltralight => r is Some && r.unwrap().0@ == "hf mfu dump"@ && r.unwrap().1 == 4,
            BlankType::IClassBlank => r is Some && r.unwrap().0@ == "hf iclass dump --ki 0"@ && r.unwrap().1
                == 8,
            _ => r is None,
        },
{
    match blank {
        BlankType::MagicMifareGen1a => Some((crate::command_builder::build_mf_cview(), 16)),
        BlankType::MagicMifareGen2
        | BlankType::MagicMifareGen3
        | BlankType::MagicMifareGen4GTU
        | BlankType::MagicMifareGen4GDM => Some((crate::command_builder::build_mf_dump(), 16)),
        BlankType::MagicUltralight => Some((crate::command_builder::build_mfu_dump(), 4)),
        BlankType::IClassBlank => Some((crate::command_builder::build_iclass_dump(), 8)),
        _ => None,
    }
}

/// What the read-back output alone decides: `Some` mismatch list when the
/// read-back failed to run (nothing to compare: empty) or reported an error
/// (block 0), `None` when the dump files are to be compared.
pub fn readback_precheck(result: &Result<String, AppError>) -> (r: Option<Vec<u16>>)
    ensures
        result is Err ==> r is Some && r->0@.len() == 0,
        result is Ok && crate::text::seq_contains(result->Ok_0@, "[!!]"@) ==> r is Some
            && r->0@ == seq![0u16],
        result is Ok && !crate::text::seq_contains(result->Ok_0@, "[!!]"@) ==> r is None,
{
    match result {
        Err(_) => Some(Vec::new()),
        Ok(out) => {
            let v = chars_of(out.as_str());
            if contains(&v, "[!!]") {
                Some(vec![0u16])
            } else {
                None
            }
        },
    }
}

/// The dump command for the HF families dumped without key recovery
/// (Ultralight, NTAG, iCLASS) and the summary recorded after it.
pub fn hf_dump_plan(card_type: &CardType) -> (r: Result<(&'static str, &'static str), AppError>)
    ensures
        (*card_type is IClass) ==> r is Ok && r.unwrap().0@ == "hf iclass dump --ki 0"@,
        (*card_type is MifareUltralight || *card_type is NTAG) ==> r is Ok && r.unwrap().0@
            == "hf mfu dump"@,
        !(*card_type is IClass || *card_type is MifareUltralight || *card_type is NTAG) ==> r is Err,
{
    match card_type {
        CardType::IClass => Ok((crate::command_builder::build_iclass_dump(), "iCLASS dump complete.")),
        CardType::NTAG => Ok((crate::command_builder::build_mfu_dump(), "NTAG dump complete.")),
        CardType::MifareUltralight => Ok(
            (crate::command_builder::build_mfu_dump(), "Ultralight dump complete."),
        ),
        _ => Err(AppError::CommandFailed(cat(
            "hf_dump only supports UL/NTAG/iCLASS, got ",
            crate::types::CardType::display_name(card_type),
        ))),
    }
}

/// Key recovery runs on MIFARE Classic cards only.
pub fn check_autopwn_card(card_type: &CardType) -> (r: Result<(), AppError>)
    ensures
        r is Ok <==> (*card_type is MifareClassic1K || *card_type is MifareClassic4K),
{
    match card_type {
        CardType::MifareClassic1K | CardType::MifareClassic4K => Ok(()),
        _ => Err(AppError::CommandFailed(cat(
            "Autopwn only supports MIFARE Classic, got ",
            crate::types::CardType::display_name(card_type),
        ))),
    }
}

/// The mismatched blocks when both dumps could be read; none to report
/// (verification rests on the UID) when either is missing.
pub fn dump_comparison(source: Option<&Vec<u8>>, readback: Option<&Vec<u8>>, block_size: usize) -> (r: Vec<u16>)
    ensures
        (source is None || readback is None) ==> r@.len() == 0,
        match (source, readback) {
            (Some(a), Some(b)) => a@.len() > 0 && b@.len() > 0 && block_size > 0 ==> r@
                == differing_blocks(
                a@,
                b@,
                block_size as int,
                (if a@.len() < b@.len() {
                    a@.len()
                } else {
                    b@.len()
                }) as int / block_size as int,
            ),
            _ => true,
        },
{
    match (source, readback) {
        (Some(a), Some(b)) => compare_dumps(a, b, block_size),
        _ => Vec::new(),
    }
}

/// The UID gate of HF verification: the read-back search identified a card
/// and its UID is the source's.
pub fn hf_uid_gate(source_uid: &str, found: &Option<(CardType, crate::types::CardData)>) -> (r: bool)
    ensures
        r == match found {
            Some(x) => uid_key(source_uid@) == uid_key(x.1.uid@),
            None => false,
        },
{
    match found {
        Some((_, d)) => hf_uid_matches(source_uid, d.uid.as_str()),
        None => false,
    }
}

} // verus!
