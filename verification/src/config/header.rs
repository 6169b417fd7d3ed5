//! The header block: grid dimensions and the place of the image region.
use vstd::prelude::*;

use super::action::{le_u16, u16_from_le};
use super::{ConfigError, IMAGE_SIZE, ROW_SIZE};

verus! {

/// Length in bytes of the header block.
pub const HEADER_SIZE: usize = ROW_SIZE;

/// The decoded header of a configuration.
#[derive(Debug, Clone, Copy)]
pub struct Header {
    /// Columns of the button grid.
    pub width: u8,
    /// Rows of the button grid.
    pub height: u8,
    /// Buttons on a page: `width * height`.
    pub bd_count: u32,
    /// Pages in the configuration: `offset / bd_count`.
    pub page_count: u16,
    /// Rows from the start of the stream to the start of the image region.
    pub offset: u16,
}

/// The number of buttons that a header block announces.
pub open spec fn block_bd_count(block: Seq<u8>) -> int {
    block[0] as int * block[1] as int
}

/// The offset field of a header block, in rows.
pub open spec fn block_offset(block: Seq<u8>) -> int {
    le_u16(block[2], block[3])
}

/// A header block is valid when its grid is not empty and the image region
/// starts after the header block and the function rows of page 0.
pub open spec fn block_valid(block: Seq<u8>) -> bool {
    &&& block_bd_count(block) > 0
    &&& block_offset(block) > block_bd_count(block)
}

/// The header that a valid header block encodes.
pub open spec fn header_of(block: Seq<u8>) -> Header {
    Header {
        width: block[0],
        height: block[1],
        bd_count: block_bd_count(block) as u32,
        page_count: (block_offset(block) / block_bd_count(block)) as u16,
        offset: block_offset(block) as u16,
    }
}

impl Header {
    /// The invariant of a header: the derived fields follow from the stored
    /// ones, the grid is not empty, and the image region starts after the
    /// header block and the function rows of page 0.
    pub open spec fn wf(&self) -> bool {
        &&& self.bd_count == self.width as int * self.height as int
        &&& self.bd_count > 0
        &&& self.offset > self.bd_count
        &&& self.page_count == self.offset as int / self.bd_count as int
    }

    /// Byte offset of the first function row of `page`.
    pub open spec fn spec_data_offset(&self, page: u16) -> int {
        ROW_SIZE as int * self.bd_count as int * page as int + HEADER_SIZE as int
    }

    /// Byte offset of the image region.
    pub open spec fn spec_image_start(&self) -> int {
        self.offset as int * ROW_SIZE as int
    }

    /// Byte offset of the first image block of `page`.
    pub open spec fn spec_images_offset(&self, page: u16) -> int {
        self.offset as int * ROW_SIZE as int + IMAGE_SIZE as int * self.bd_count as int * page as int
    }

    /// Decodes a header block. A block whose grid is empty, or whose image
    /// region would start before the end of page 0, is refused.
    pub fn parse(block: &[u8; ROW_SIZE]) -> (r: Result<Header, ConfigError>)
        ensures
            r is Ok <==> block_valid(block@),
            r matches Err(e) ==> e == ConfigError::MalformedHeader,
            r matches Ok(h) ==> {
                &&& h == header_of(block@)
                &&& h.wf()
                &&& h.bd_count == h.width as int * h.height as int
                &&& h.page_count == h.offset as int / h.bd_count as int
            },
    {
        let width = block[0];
        let height = block[1];
        assert(width as int * height as int <= 255 * 255) by (nonlinear_arith)
            requires
                width <= 255,
                height <= 255,
        ;
        let bd_count: u32 = width as u32 * height as u32;
        let offset = u16_from_le(block[2], block[3]);
        if bd_count == 0 || offset as u32 <= bd_count {
            return Err(ConfigError::MalformedHeader);
        }
        let count: u16 = bd_count as u16;
        let page_count = offset / count;
        Ok(Header { bd_count, width, height, offset, page_count })
    }

    /// Whether the header keeps its invariant.
    pub fn is_well_formed(&self) -> (b: bool)
        ensures
            b == self.wf(),
    {
        assert(self.width as int * self.height as int <= 255 * 255) by (nonlinear_arith)
            requires
                self.width <= 255,
                self.height <= 255,
        ;
        let count: u32 = self.width as u32 * self.height as u32;
        self.bd_count == count && count > 0 && self.offset as u32 > count && self.page_count as u32
            == self.offset as u32 / count
    }

    /// Byte offset of the first function row of `page`: the rows of the pages
    /// before it, and the header block.
    pub fn data_offset(&self, page: u16) -> (r: u64)
        ensures
            r == self.spec_data_offset(page),
    {
        assert(self.bd_count as int * page as int <= 0xffff_ffff * 0xffff) by (nonlinear_arith)
            requires
                self.bd_count <= 0xffff_ffff,
                page <= 0xffff,
        ;
        let rows: u64 = self.bd_count as u64 * page as u64;
        assert(ROW_SIZE as int * self.bd_count as int * page as int == ROW_SIZE as int * (
        self.bd_count as int * page as int)) by (nonlinear_arith);
        ROW_SIZE as u64 * rows + HEADER_SIZE as u64
    }

    /// Byte offset of the image region: the offset field, counted in rows.
    pub fn image_start(&self) -> (r: u32)
        ensures
            r == self.spec_image_start(),
    {
        let row: u32 = ROW_SIZE as u32;
        assert(self.offset as int * row as int <= 0xffff * 128) by (nonlinear_arith)
            requires
                self.offset <= 0xffff,
                row == 128,
        ;
        self.offset as u32 * row
    }

    /// Byte offset of the first image block of `page`: the start of the image
    /// region, and the image blocks of the pages before it.
    pub fn images_offset(&self, page: u16) -> (r: u64)
        ensures
            r == self.spec_images_offset(page),
    {
        assert(self.bd_count as int * page as int <= 0xffff_ffff * 0xffff) by (nonlinear_arith)
            requires
                self.bd_count <= 0xffff_ffff,
                page <= 0xffff,
        ;
        let blocks: u64 = self.bd_count as u64 * page as u64;
        assert(IMAGE_SIZE as int * self.bd_count as int * page as int == IMAGE_SIZE as int * (
        self.bd_count as int * page as int)) by (nonlinear_arith);
        self.image_start() as u64 + IMAGE_SIZE as u64 * blocks
    }
}

} // verus!
