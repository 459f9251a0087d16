//! The shader table: fixed-size records grouped into three aligned regions
//! (ray generation, miss, hit group), the byte image written into the upload
//! buffer, and the address ranges the dispatch call consumes.

use vstd::prelude::*;

use crate::align::{
    lemma_round_up_properties, round_up, spec_round_up, SHADER_IDENTIFIER_SIZE,
    SHADER_RECORD_ALIGNMENT, SHADER_TABLE_ALIGNMENT,
};
use crate::resource::GpuVa;

verus! {

/// Upper bound on the records per region, so that every size in the layout
/// fits comfortably in 32 bits.
pub const MAX_SHADER_RECORDS: u32 = 0x0040_0000;

/// An address range handed to the dispatch call (single-record region).
#[derive(Clone, Copy, Debug, PartialEq, Eq, Structural)]
pub struct GpuVaRange {
    pub start: GpuVa,
    pub size: u64,
}

/// An address range with a record stride (multi-record region).
#[derive(Clone, Copy, Debug, PartialEq, Eq, Structural)]
pub struct GpuVaRangeAndStride {
    pub start: GpuVa,
    pub size: u64,
    pub stride: u64,
}

/// Everything the ray-dispatch call needs: the three shader-table ranges and
/// the dispatch grid.
#[derive(Clone, Copy, Debug, PartialEq, Eq, Structural)]
pub struct DispatchRaysDesc {
    pub ray_generation_shader_record: GpuVaRange,
    pub miss_shader_table: GpuVaRangeAndStride,
    pub hit_group_table: GpuVaRangeAndStride,
    pub width: u32,
    pub height: u32,
    pub depth: u32,
}

impl DispatchRaysDesc {
    /// The all-zero descriptor a renderer starts with, before the shader
    /// table is built.
    pub open spec fn spec_zeroed() -> DispatchRaysDesc {
        DispatchRaysDesc {
            ray_generation_shader_record: GpuVaRange {
                start: GpuVa { resource: 0, offset: 0 },
                size: 0,
            },
            miss_shader_table: GpuVaRangeAndStride {
                start: GpuVa { resource: 0, offset: 0 },
                size: 0,
                stride: 0,
            },
            hit_group_table: GpuVaRangeAndStride {
                start: GpuVa { resource: 0, offset: 0 },
                size: 0,
                stride: 0,
            },
            width: 0,
            height: 0,
            depth: 0,
        }
    }

    pub fn zeroed() -> (d: DispatchRaysDesc)
        ensures
            d == DispatchRaysDesc::spec_zeroed(),
    {
        DispatchRaysDesc {
            ray_generation_shader_record: GpuVaRange {
                start: GpuVa { resource: 0, offset: 0 },
                size: 0,
            },
            miss_shader_table: GpuVaRangeAndStride {
                start: GpuVa { resource: 0, offset: 0 },
                size: 0,
                stride: 0,
            },
            hit_group_table: GpuVaRangeAndStride {
                start: GpuVa { resource: 0, offset: 0 },
                size: 0,
                stride: 0,
            },
            width: 0,
            height: 0,
            depth: 0,
        }
    }
}

/// The computed layout of a shader table: one record size, the used size of
/// each region, each region rounded up to the table alignment, and the total.
#[derive(Clone, Copy, Debug, PartialEq, Eq, Structural)]
pub struct ShaderTableLayout {
    pub record_size: u32,
    pub ray_gen_count: u32,
    pub miss_count: u32,
    pub hit_group_count: u32,
    pub ray_gen_size: u32,
    pub miss_size: u32,
    pub hit_group_size: u32,
    pub ray_gen_region: u32,
    pub miss_region: u32,
    pub hit_group_region: u32,
    pub table_size: u32,
}

/// The record size every layout uses: the shader-identifier size rounded up
/// to the record alignment.
pub open spec fn spec_record_size() -> int {
    spec_round_up(SHADER_IDENTIFIER_SIZE as int, SHADER_RECORD_ALIGNMENT as int)
}

impl ShaderTableLayout {
    /// The layout discipline: record size from the hardware constants, used
    /// sizes counted in whole records, regions rounded up to the table
    /// alignment and laid out contiguously.
    pub open spec fn wf(self) -> bool {
        &&& 1 <= self.ray_gen_count <= MAX_SHADER_RECORDS
        &&& 1 <= self.miss_count <= MAX_SHADER_RECORDS
        &&& 1 <= self.hit_group_count <= MAX_SHADER_RECORDS
        &&& self.record_size == spec_record_size()
        &&& self.ray_gen_size == self.ray_gen_count * self.record_size
        &&& self.miss_size == self.miss_count * self.record_size
        &&& self.hit_group_size == self.hit_group_count * self.record_size
        &&& self.ray_gen_region
            == spec_round_up(self.ray_gen_size as int, SHADER_TABLE_ALIGNMENT as int)
        &&& self.miss_region
            == spec_round_up(self.miss_size as int, SHADER_TABLE_ALIGNMENT as int)
        &&& self.hit_group_region
            == spec_round_up(self.hit_group_size as int, SHADER_TABLE_ALIGNMENT as int)
        &&& self.table_size
            == self.ray_gen_region + self.miss_region + self.hit_group_region
    }

    /// Computes the layout for the given record counts.
    pub fn compute(ray_gen_count: u32, miss_count: u32, hit_group_count: u32) -> (l:
        ShaderTableLayout)
        requires
            1 <= ray_gen_count <= MAX_SHADER_RECORDS,
            1 <= miss_count <= MAX_SHADER_RECORDS,
            1 <= hit_group_count <= MAX_SHADER_RECORDS,
        ensures
            l.wf(),
            l.ray_gen_count == ray_gen_count,
            l.miss_count == miss_count,
            l.hit_group_count == hit_group_count,
    {
        let record_size = round_up(SHADER_IDENTIFIER_SIZE, SHADER_RECORD_ALIGNMENT);
        assert(record_size == 32);

        let ray_gen_size = ray_gen_count * record_size;
        let miss_size = miss_count * record_size;
        let hit_group_size = hit_group_count * record_size;

        let ray_gen_region = round_up(ray_gen_size, SHADER_TABLE_ALIGNMENT);
        let miss_region = round_up(miss_size, SHADER_TABLE_ALIGNMENT);
        let hit_group_region = round_up(hit_group_size, SHADER_TABLE_ALIGNMENT);

        let table_size = ray_gen_region + miss_region + hit_group_region;

        ShaderTableLayout {
            record_size,
            ray_gen_count,
            miss_count,
            hit_group_count,
            ray_gen_size,
            miss_size,
            hit_group_size,
            ray_gen_region,
            miss_region,
            hit_group_region,
            table_size,
        }
    }
}

/// Law: in a well-formed layout every region size is a multiple of the
/// shader-table alignment, and the start offset of every record within its
/// region — record `i` starts at `i * record_size` — is a multiple of the
/// shader-record alignment, for any record count of one or more.
pub proof fn lemma_shader_table_alignment(l: ShaderTableLayout)
    requires
        l.wf(),
    ensures
        l.ray_gen_region % SHADER_TABLE_ALIGNMENT == 0,
        l.miss_region % SHADER_TABLE_ALIGNMENT == 0,
        l.hit_group_region % SHADER_TABLE_ALIGNMENT == 0,
        forall|i: int|
            0 <= i < l.ray_gen_count ==> #[trigger] (i * l.record_size)
                % (SHADER_RECORD_ALIGNMENT as int) == 0,
        forall|i: int|
            0 <= i < l.miss_count ==> #[trigger] (i * l.record_size)
                % (SHADER_RECORD_ALIGNMENT as int) == 0,
        forall|i: int|
            0 <= i < l.hit_group_count ==> #[trigger] (i * l.record_size)
                % (SHADER_RECORD_ALIGNMENT as int) == 0,
{
    lemma_round_up_properties(l.ray_gen_size as int, SHADER_TABLE_ALIGNMENT as int);
    lemma_round_up_properties(l.miss_size as int, SHADER_TABLE_ALIGNMENT as int);
    lemma_round_up_properties(l.hit_group_size as int, SHADER_TABLE_ALIGNMENT as int);
    assert forall|i: int| 0 <= i implies #[trigger] (i * l.record_size)
        % (SHADER_RECORD_ALIGNMENT as int) == 0 by {
        vstd::arithmetic::div_mod::lemma_mod_multiples_basic(i, SHADER_RECORD_ALIGNMENT as int);
    }
}

/// Writes one identifier into the table image at the given offset, leaving
/// every other byte as it was.
fn write_record(table: &mut Vec<u8>, offset: usize, identifier: &Vec<u8>)
    requires
        offset + identifier@.len() <= old(table)@.len(),
    ensures
        final(table)@.len() == old(table)@.len(),
        forall|j: int|
            offset <= j < offset + identifier@.len() ==> final(table)@[j] == identifier@[
                j - offset],
        forall|j: int|
            0 <= j < old(table)@.len() && !(offset <= j < offset + identifier@.len())
                ==> final(table)@[j] == old(table)@[j],
{
    let tlen = table.len();
    let mut j: usize = 0;
    while j < identifier.len()
        invariant
            offset + identifier@.len() <= table@.len(),
            table@.len() == tlen,
            j <= identifier@.len(),
            table@.len() == old(table)@.len(),
            forall|k: int| offset <= k < offset + j ==> table@[k] == identifier@[k - offset],
            forall|k: int|
                0 <= k < old(table)@.len() && !(offset <= k < offset + j) ==> table@[k] == old(
                    table,
                )@[k],
        decreases identifier@.len() - j,
    {
        table.set(offset + j, identifier[j]);
        j += 1;
    }
}

/// Builds the byte image of a shader table that populates one record per
/// region: each identifier sits at the start of its region, and all padding
/// bytes are zero.
pub fn write_shader_table(
    layout: &ShaderTableLayout,
    ray_gen_id: &Vec<u8>,
    miss_id: &Vec<u8>,
    hit_group_id: &Vec<u8>,
) -> (table: Vec<u8>)
    requires
        layout.wf(),
        ray_gen_id@.len() == SHADER_IDENTIFIER_SIZE,
        miss_id@.len() == SHADER_IDENTIFIER_SIZE,
        hit_group_id@.len() == SHADER_IDENTIFIER_SIZE,
    ensures
        table@.len() == layout.table_size,
        forall|j: int|
            0 <= j < SHADER_IDENTIFIER_SIZE ==> table@[j] == ray_gen_id@[j],
        forall|j: int|
            0 <= j < SHADER_IDENTIFIER_SIZE ==> table@[layout.ray_gen_region + j] == miss_id@[j],
        forall|j: int|
            0 <= j < SHADER_IDENTIFIER_SIZE ==> table@[layout.ray_gen_region + layout.miss_region
                + j] == hit_group_id@[j],
        forall|j: int|
            0 <= j < layout.table_size && !(0 <= j < SHADER_IDENTIFIER_SIZE) && !(
            layout.ray_gen_region <= j < layout.ray_gen_region + SHADER_IDENTIFIER_SIZE) && !(
            layout.ray_gen_region + layout.miss_region <= j < layout.ray_gen_region
                + layout.miss_region + SHADER_IDENTIFIER_SIZE) ==> table@[j] == 0,
{
    proof {
        lemma_round_up_properties(layout.ray_gen_size as int, SHADER_TABLE_ALIGNMENT as int);
        lemma_round_up_properties(layout.miss_size as int, SHADER_TABLE_ALIGNMENT as int);
        lemma_round_up_properties(layout.hit_group_size as int, SHADER_TABLE_ALIGNMENT as int);
        vstd::arithmetic::mul::lemma_mul_inequality(
            1,
            layout.ray_gen_count as int,
            spec_record_size(),
        );
        vstd::arithmetic::mul::lemma_mul_inequality(1, layout.miss_count as int, spec_record_size());
        vstd::arithmetic::mul::lemma_mul_inequality(
            1,
            layout.hit_group_count as int,
            spec_record_size(),
        );
    }
    let table_size = layout.table_size as usize;
    let mut table: Vec<u8> = Vec::new();
    let mut i: usize = 0;
    while i < table_size
        invariant
            table@.len() == i,
            i <= table_size,
            forall|k: int| 0 <= k < i ==> table@[k] == 0,
        decreases table_size - i,
    {
        table.push(0);
        i += 1;
    }

    write_record(&mut table, 0, ray_gen_id);
    write_record(&mut table, layout.ray_gen_region as usize, miss_id);
    write_record(
        &mut table,
        layout.ray_gen_region as usize + layout.miss_region as usize,
        hit_group_id,
    );

    table
}

} // verus!
