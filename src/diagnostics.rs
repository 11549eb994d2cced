use vstd::prelude::*;

use crate::text::decimal;
use crate::text::push_decimal;
use crate::text::push_text;

verus! {

/// Counters the renderer reports for one frame, in the log's column order.
#[derive(Clone, Copy, Debug, PartialEq, Eq)]
pub struct FrameRecord {
    pub frame_number: u64,
    pub paint_fibers: u64,
    pub paint_replayed_subtrees: u64,
    pub prepaint_fibers: u64,
    pub prepaint_replayed_subtrees: u64,
    pub mutated_pool_segments: u64,
    pub total_pool_segments: u64,
    pub hitboxes_in_snapshot: u64,
    pub hitboxes_snapshot_rebuilt: u64,
    pub estimated_instance_upload_bytes: u64,
    pub quads: u64,
    pub monochrome_sprites: u64,
    pub polychrome_sprites: u64,
}

/// The record's fields in column order.
pub open spec fn fields(d: FrameRecord) -> Seq<u64> {
    seq![
        d.frame_number,
        d.paint_fibers,
        d.paint_replayed_subtrees,
        d.prepaint_fibers,
        d.prepaint_replayed_subtrees,
        d.mutated_pool_segments,
        d.total_pool_segments,
        d.hitboxes_in_snapshot,
        d.hitboxes_snapshot_rebuilt,
        d.estimated_instance_upload_bytes,
        d.quads,
        d.monochrome_sprites,
        d.polychrome_sprites,
    ]
}

/// Numbers in decimal, separated by commas.
pub open spec fn joined(ns: Seq<u64>) -> Seq<char>
    decreases ns.len(),
{
    if ns.len() == 0 {
        Seq::empty()
    } else if ns.len() == 1 {
        decimal(ns[0] as nat)
    } else {
        joined(ns.drop_last()) + seq![','] + decimal(ns.last() as nat)
    }
}

/// The log's column names.
pub open spec fn header_spec() -> Seq<char> {
    "frame,paint_fibers,paint_replayed,prepaint_fibers,prepaint_replayed,mutated_segments,total_segments,hitboxes,hitboxes_rebuilt,upload_bytes,quads,mono_sprites,poly_sprites"@
}

/// The log line of one record.
pub open spec fn row_spec(d: FrameRecord) -> Seq<char> {
    joined(fields(d))
}

/// The header line of the log.
pub fn csv_header() -> (r: String)
    ensures
        r@ == header_spec(),
{
    String::from_str(
        "frame,paint_fibers,paint_replayed,prepaint_fibers,prepaint_replayed,mutated_segments,total_segments,hitboxes,hitboxes_rebuilt,upload_bytes,quads,mono_sprites,poly_sprites",
    )
}

/// The log line of one record: its thirteen counters in column order, comma-separated.
pub fn csv_row(d: &FrameRecord) -> (r: String)
    ensures
        r@ == row_spec(*d),
{
    let values: Vec<u64> = vec![
        d.frame_number,
        d.paint_fibers,
        d.paint_replayed_subtrees,
        d.prepaint_fibers,
        d.prepaint_replayed_subtrees,
        d.mutated_pool_segments,
        d.total_pool_segments,
        d.hitboxes_in_snapshot,
        d.hitboxes_snapshot_rebuilt,
        d.estimated_instance_upload_bytes,
        d.quads,
        d.monochrome_sprites,
        d.polychrome_sprites,
    ];
    assert(values@ =~= fields(*d));
    let mut s = String::new();
    let mut i: usize = 0;
    while i < values.len()
        invariant
            i <= values@.len(),
            s@ == joined(values@.take(i as int)),
        decreases values@.len() - i,
    {
        if i > 0 {
            proof { reveal_strlit(","); }
            push_text(&mut s, ",");
        }
        push_decimal(&mut s, values[i]);
        let ghost t = values@.take(i + 1);
        assert(t.drop_last() =~= values@.take(i as int));
        i = i + 1;
    }
    assert(values@.take(13) =~= values@);
    s
}

/// Lines one emission writes, and whether they start the file anew.
pub struct LogWrite {
    pub start_new_file: bool,
    pub lines: Vec<String>,
}

/// The one-time gate of the frame log: the header goes out with the first record only.
pub struct FrameLog {
    pub header_written: bool,
}

/// Lines one emission writes: the header before the row unless it was written already.
pub open spec fn emit_lines(header_written: bool, d: FrameRecord) -> Seq<Seq<char>> {
    if header_written { seq![row_spec(d)] } else { seq![header_spec(), row_spec(d)] }
}

/// The log's lines after emitting `records` in order on a fresh gate.
pub open spec fn log_after(records: Seq<FrameRecord>) -> Seq<Seq<char>>
    decreases records.len(),
{
    if records.len() == 0 {
        Seq::empty()
    } else {
        log_after(records.drop_last()) + emit_lines(records.len() > 1, records.last())
    }
}

impl FrameLog {
    /// A gate that has written nothing yet.
    pub fn new() -> (r: FrameLog)
        ensures
            !r.header_written,
    {
        FrameLog { header_written: false }
    }

    /// What to write for one record: on the first call a fresh file with the header and
    /// the row, afterwards the row appended.
    pub fn emit(&mut self, d: &FrameRecord) -> (w: LogWrite)
        ensures
            final(self).header_written,
            w.start_new_file == !old(self).header_written,
            w.lines@.map_values(|l: String| l@) == emit_lines(old(self).header_written, *d),
    {
        let mut lines: Vec<String> = Vec::new();
        let start_new_file = !self.header_written;
        if start_new_file {
            lines.push(csv_header());
            self.header_written = true;
        }
        lines.push(csv_row(d));
        assert(lines@.map_values(|l: String| l@) =~= emit_lines(!start_new_file, *d));
        LogWrite { start_new_file, lines }
    }
}

/// Over one or more emissions the header is written once, first, and each record adds
/// exactly one row after it, in order.
pub proof fn lemma_header_once(records: Seq<FrameRecord>)
    requires
        records.len() >= 1,
    ensures
        log_after(records).len() == records.len() + 1,
        log_after(records)[0] == header_spec(),
        forall|i: int| 0 <= i < records.len() ==> #[trigger] log_after(records)[i + 1] == row_spec(records[i]),
    decreases records.len(),
{
    if records.len() > 1 {
        let p = records.drop_last();
        lemma_header_once(p);
        assert forall|i: int| 0 <= i < records.len() implies #[trigger] log_after(records)[i + 1]
            == row_spec(records[i]) by {
            if i < p.len() {
                assert(log_after(p)[i + 1] == row_spec(p[i]));
            }
        }
    } else {
        assert(log_after(records.drop_last()) =~= Seq::<Seq<char>>::empty());
        assert(log_after(records) =~= seq![header_spec(), row_spec(records[0])]);
    }
}

} // verus!
