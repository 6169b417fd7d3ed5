//! The binary configuration: header, pages of button records, and the store
//! that loads one page at a time from a seekable byte stream.
use vstd::prelude::*;

use header::Header;
use page::Page;

pub mod action;
pub mod button;
pub mod header;
pub mod memory;
pub mod page;

verus! {

/// Length in bytes of one function row, and of the header block.
pub const ROW_SIZE: usize = 128;

/// Length in bytes of one image block: a liveness flag and the frame buffer.
pub const IMAGE_SIZE: usize = 1025;

/// Length in bytes of the payload of one slot: half a row less the mode byte.
pub const DATA_SIZE: usize = ROW_SIZE / 2 - 1;

/// Why a configuration could not be loaded.
#[derive(Debug, Clone, Copy, PartialEq, Eq, Structural)]
pub enum ConfigError {
    /// The header block describes an empty grid, or an image region that
    /// starts before the end of page 0.
    MalformedHeader,
    /// A byte offset of the page lies beyond what the stream can seek to.
    OffsetOutOfRange,
    /// The stream failed to seek.
    Seek,
    /// The stream failed to read.
    Read,
    /// The stream ended before a block was complete.
    Truncated,
}

/// A seekable byte stream that holds a configuration.
///
/// A kind of stream may keep to a model: the bytes it holds, and the position
/// of its next read or write. A stream of such a kind is reliable. Its reads
/// come back short only at the end of the bytes, and its seeks fail only
/// beyond that end. A kind that says nothing of itself promises nothing: its
/// calls may fail or come back short at any time, and what is read from it is
/// taken as it comes.
pub trait RWSeek {
    /// Whether streams of this kind keep to the model.
    open spec fn obeys_stream_model() -> bool {
        false
    }

    /// The bytes that the stream holds.
    open spec fn bytes(&self) -> Seq<u8> {
        Seq::empty()
    }

    /// The position of the next read or write, counted from the start.
    open spec fn position(&self) -> nat {
        0
    }

    /// Reads into the front of `buf` from the current position, and moves on
    /// by the number of bytes read, which it hands back.
    fn read(&mut self, buf: &mut [u8]) -> (r: Result<usize, ()>)
        ensures
            final(buf)@.len() == old(buf)@.len(),
            Self::obeys_stream_model() ==> final(self).bytes() == old(self).bytes(),
            Self::obeys_stream_model() && old(self).position() <= old(self).bytes().len() ==> {
                let n = smaller(
                    old(buf)@.len() as int,
                    old(self).bytes().len() - old(self).position(),
                );
                &&& r == Ok::<usize, ()>(n as usize)
                &&& final(self).position() == old(self).position() + n
                &&& final(buf)@ == old(self).bytes().subrange(
                    old(self).position() as int,
                    old(self).position() + n,
                ) + old(buf)@.subrange(n, old(buf)@.len() as int)
            },
    ;

    /// Writes the front of `buf` over the bytes at the current position, and
    /// moves on by the number of bytes written, which it hands back.
    fn write(&mut self, buf: &[u8]) -> (r: Result<usize, ()>)
        ensures
            Self::obeys_stream_model() ==> (r matches Ok(n) ==> {
                &&& n <= buf@.len()
                &&& final(self).position() == old(self).position() + n
                &&& final(self).bytes() == overwritten(
                    old(self).bytes(),
                    old(self).position() as int,
                    buf@.subrange(0, n as int),
                )
            }),
    ;

    /// Moves to `pos` bytes after the start.
    fn seek_from_start(&mut self, pos: u32) -> (r: Result<(), ()>)
        ensures
            Self::obeys_stream_model() ==> {
                &&& final(self).bytes() == old(self).bytes()
                &&& r is Ok <==> pos <= old(self).bytes().len()
                &&& r is Ok ==> final(self).position() == pos
                &&& r is Err ==> final(self).position() == old(self).position()
            },
    ;
}

/// The smaller of two counts.
pub open spec fn smaller(a: int, b: int) -> int {
    if a <= b {
        a
    } else {
        b
    }
}

/// The bytes of a stream after `data` was written at position `at`: the
/// stream grows where the data reaches beyond its end.
pub open spec fn overwritten(bytes: Seq<u8>, at: int, data: Seq<u8>) -> Seq<u8> {
    Seq::new(
        if bytes.len() >= at + data.len() {
            bytes.len()
        } else {
            (at + data.len()) as nat
        },
        |i: int|
            if at <= i < at + data.len() {
                data[i - at]
            } else {
                bytes[i]
            },
    )
}

/// The function row of button `index` on `page`, as the stream holds it.
pub open spec fn row_in(bytes: Seq<u8>, header: Header, page: u16, index: int) -> Seq<u8> {
    bytes.subrange(
        header.spec_data_offset(page) + index * ROW_SIZE as int,
        header.spec_data_offset(page) + (index + 1) * ROW_SIZE as int,
    )
}

/// The image block of button `index` on `page`, as the stream holds it.
pub open spec fn image_in(bytes: Seq<u8>, header: Header, page: u16, index: int) -> Seq<u8> {
    bytes.subrange(
        header.spec_images_offset(page) + index * IMAGE_SIZE as int,
        header.spec_images_offset(page) + (index + 1) * IMAGE_SIZE as int,
    )
}

/// Whether `loaded` is page `page` of the configuration in `bytes`: one
/// button per address, each with its function row and its image block.
pub open spec fn is_page_of(loaded: Page, bytes: Seq<u8>, header: Header, page: u16) -> bool {
    &&& loaded.buttons@.len() == header.bd_count
    &&& forall|i: int|
        0 <= i < header.bd_count ==> {
            &&& (#[trigger] loaded.buttons@[i]).raw_data@ == row_in(bytes, header, page, i)
            &&& loaded.buttons@[i].raw_image@ == image_in(bytes, header, page, i)
        }
}

/// Whether `e` is one of the errors that the stream itself gives rise to.
pub open spec fn is_stream_error(e: ConfigError) -> bool {
    e == ConfigError::Seek || e == ConfigError::Read || e == ConfigError::Truncated
}

/// Whether one of the two byte offsets of `page` lies beyond what a seek can reach.
pub open spec fn out_of_seek_range(header: Header, page: u16) -> bool {
    header.spec_data_offset(page) > u32::MAX || header.spec_images_offset(page) > u32::MAX
}

/// Why page `page` cannot be loaded from a reliable stream of `len` bytes, if
/// it cannot: an offset is out of reach of a seek, or lies beyond the end of
/// the stream, or the stream ends within the rows or within the images.
pub open spec fn load_failure(len: int, header: Header, page: u16) -> Option<ConfigError> {
    let rows = header.spec_data_offset(page);
    let images = header.spec_images_offset(page);
    if out_of_seek_range(header, page) {
        Some(ConfigError::OffsetOutOfRange)
    } else if rows > len {
        Some(ConfigError::Seek)
    } else if rows + header.bd_count * ROW_SIZE as int > len {
        Some(ConfigError::Truncated)
    } else if images > len {
        Some(ConfigError::Seek)
    } else if images + header.bd_count * IMAGE_SIZE as int > len {
        Some(ConfigError::Truncated)
    } else {
        None
    }
}

/// Why a reliable stream of these bytes cannot be opened as a configuration,
/// if it cannot: it ends within the header block, its header is malformed,
/// or page 0 cannot be loaded.
pub open spec fn open_failure(bytes: Seq<u8>) -> Option<ConfigError> {
    if bytes.len() < ROW_SIZE {
        Some(ConfigError::Truncated)
    } else if !header::block_valid(bytes.subrange(0, ROW_SIZE as int)) {
        Some(ConfigError::MalformedHeader)
    } else {
        load_failure(
            bytes.len() as int,
            header::header_of(bytes.subrange(0, ROW_SIZE as int)),
            0,
        )
    }
}

/// What a seek came to: an error of the stream is a failed seek.
pub fn check_seek(outcome: Result<(), ()>) -> (r: Result<(), ConfigError>)
    ensures
        r is Ok <==> outcome is Ok,
        r matches Err(e) ==> e == ConfigError::Seek,
{
    match outcome {
        Ok(()) => Ok(()),
        Err(_) => Err(ConfigError::Seek),
    }
}

/// What a read of `wanted` bytes came to: an error of the stream is a failed
/// read, and any other count than `wanted` is a stream that ended early.
pub fn check_read(outcome: Result<usize, ()>, wanted: usize) -> (r: Result<(), ConfigError>)
    ensures
        r is Ok <==> outcome == Ok::<usize, ()>(wanted),
        r == Err::<(), ConfigError>(ConfigError::Read) <==> outcome is Err,
        r == Err::<(), ConfigError>(ConfigError::Truncated) <==> (outcome matches Ok(n) && n
            != wanted),
{
    match outcome {
        Ok(n) => {
            if n == wanted {
                Ok(())
            } else {
                Err(ConfigError::Truncated)
            }
        },
        Err(_) => Err(ConfigError::Read),
    }
}

/// The byte offset as a seek position, where it is one.
pub fn seek_position(offset: u64) -> (r: Result<u32, ConfigError>)
    ensures
        r is Ok <==> offset <= u32::MAX,
        r matches Ok(pos) ==> pos == offset,
        r matches Err(e) ==> e == ConfigError::OffsetOutOfRange,
{
    if offset <= u32::MAX as u64 {
        Ok(offset as u32)
    } else {
        Err(ConfigError::OffsetOutOfRange)
    }
}

/// Moves the stream to `pos`.
pub fn seek_to<C: RWSeek>(config_file: &mut C, pos: u32) -> (r: Result<(), ConfigError>)
    ensures
        r matches Err(e) ==> e == ConfigError::Seek,
        C::obeys_stream_model() ==> {
            &&& final(config_file).bytes() == old(config_file).bytes()
            &&& r is Ok <==> pos <= old(config_file).bytes().len()
            &&& r is Ok ==> final(config_file).position() == pos
        },
{
    let outcome = config_file.seek_from_start(pos);
    check_seek(outcome)
}

/// Reads one block of `N` bytes at the current position of the stream. A
/// block that the stream does not fill counts as missing.
pub fn read_block<C: RWSeek, const N: usize>(config_file: &mut C) -> (r: Result<
    [u8; N],
    ConfigError,
>)
    ensures
        r matches Err(e) ==> e == ConfigError::Read || e == ConfigError::Truncated,
        C::obeys_stream_model() ==> final(config_file).bytes() == old(config_file).bytes(),
        C::obeys_stream_model() && old(config_file).position() <= old(config_file).bytes().len()
            ==> {
            &&& r is Ok <==> old(config_file).position() + N <= old(config_file).bytes().len()
            &&& r matches Err(e) ==> e == ConfigError::Truncated
            &&& r matches Ok(block) ==> {
                &&& final(config_file).position() == old(config_file).position() + N
                &&& block@ == old(config_file).bytes().subrange(
                    old(config_file).position() as int,
                    old(config_file).position() + N,
                )
            }
        },
{
    let mut block = [0u8; N];
    let ghost blank = block@;
    let outcome = config_file.read(&mut block);
    match check_read(outcome, N) {
        Ok(()) => {
            proof {
                if C::obeys_stream_model() && old(config_file).position() <= old(
                    config_file,
                ).bytes().len() {
                    assert(blank.subrange(N as int, N as int) == Seq::<u8>::empty());
                    assert(block@ == old(config_file).bytes().subrange(
                        old(config_file).position() as int,
                        old(config_file).position() + N,
                    ));
                }
            }
            Ok(block)
        },
        Err(e) => Err(e),
    }
}

/// The store: the header of a configuration, the stream it is read from, and
/// the page that is loaded at present.
pub struct Config<C: RWSeek> {
    pub header: Header,
    pub config_file: C,
    pub page: Page,
}

impl<C: RWSeek> Config<C> {
    /// The invariant of a store: its header is valid, and its page has one
    /// button per address.
    pub open spec fn wf(&self) -> bool {
        &&& self.header.wf()
        &&& self.page.buttons@.len() == self.header.bd_count
    }

    /// Whether the store keeps its invariant.
    pub fn is_well_formed(&self) -> (b: bool)
        ensures
            b == self.wf(),
    {
        self.header.is_well_formed() && self.page.buttons.len() as u64 == self.header.bd_count as u64
    }

    /// Opens a configuration: reads the header block from the start of the
    /// stream, checks it, and loads page 0. A reliable stream is opened
    /// exactly where its bytes hold a valid header and all of page 0, and the
    /// store then holds that header and that page.
    pub fn new(mut config_file: C) -> (r: Result<Config<C>, ConfigError>)
        ensures
            r matches Ok(config) ==> config.wf(),
            r matches Err(e) ==> e == ConfigError::MalformedHeader || is_stream_error(e),
            C::obeys_stream_model() ==> match open_failure(config_file.bytes()) {
                Some(e) => r == Err::<Config<C>, ConfigError>(e),
                None => {
                    &&& r matches Ok(config)
                    &&& config.config_file.bytes() == config_file.bytes()
                    &&& config.header == header::header_of(
                        config_file.bytes().subrange(0, ROW_SIZE as int),
                    )
                    &&& is_page_of(config.page, config_file.bytes(), config.header, 0)
                },
            },
    {
        match seek_to(&mut config_file, 0) {
            Ok(()) => {},
            Err(e) => {
                return Err(e);
            },
        }
        let header_buf = match read_block::<C, ROW_SIZE>(&mut config_file) {
            Ok(block) => block,
            Err(e) => {
                return Err(e);
            },
        };
        let header = match Header::parse(&header_buf) {
            Ok(header) => header,
            Err(e) => {
                return Err(e);
            },
        };
        proof {
            assert(header.spec_data_offset(0) == ROW_SIZE);
            assert(header.spec_images_offset(0) <= 0xffff * ROW_SIZE);
        }
        let page = match Self::load_page_from_file(&mut config_file, &header, 0) {
            Ok(page) => page,
            Err(e) => {
                return Err(e);
            },
        };
        Ok(Config { page, config_file, header })
    }

    /// Reads page `page` from the stream: first the function rows of all
    /// buttons, then their image blocks, each run from its own offset. Nothing
    /// is read where one of the offsets is out of reach of a seek. From a
    /// reliable stream the page is read exactly where both runs lie within
    /// its bytes, and it is then the page that the bytes encode.
    pub fn load_page_from_file(config_file: &mut C, header: &Header, page: u16) -> (r: Result<
        Page,
        ConfigError,
    >)
        ensures
            r matches Ok(loaded) ==> loaded.buttons@.len() == header.bd_count,
            r matches Err(e) ==> e == ConfigError::OffsetOutOfRange || is_stream_error(e),
            r == Err::<Page, ConfigError>(ConfigError::OffsetOutOfRange) <==> out_of_seek_range(
                *header,
                page,
            ),
            out_of_seek_range(*header, page) ==> *final(config_file) == *old(config_file),
            C::obeys_stream_model() ==> final(config_file).bytes() == old(config_file).bytes(),
            C::obeys_stream_model() ==> match load_failure(
                old(config_file).bytes().len() as int,
                *header,
                page,
            ) {
                Some(e) => r == Err::<Page, ConfigError>(e),
                None => r matches Ok(loaded) && is_page_of(
                    loaded,
                    old(config_file).bytes(),
                    *header,
                    page,
                ),
            },
    {
        let ghost bytes = config_file.bytes();
        let data_offset = match seek_position(header.data_offset(page)) {
            Ok(pos) => pos,
            Err(e) => {
                return Err(e);
            },
        };
        let images_offset = match seek_position(header.images_offset(page)) {
            Ok(pos) => pos,
            Err(e) => {
                return Err(e);
            },
        };
        match seek_to(config_file, data_offset) {
            Ok(()) => {},
            Err(e) => {
                return Err(e);
            },
        }
        let mut data_buffs: Vec<[u8; ROW_SIZE]> = Vec::new();
        let mut button_index: u32 = 0;
        while button_index < header.bd_count
            invariant
                button_index <= header.bd_count,
                data_buffs@.len() == button_index,
                data_offset == header.spec_data_offset(page),
                images_offset == header.spec_images_offset(page),
                bytes == old(config_file).bytes(),
                C::obeys_stream_model() ==> {
                    &&& config_file.bytes() == bytes
                    &&& config_file.position() == data_offset + button_index * ROW_SIZE as int
                    &&& config_file.position() <= bytes.len()
                    &&& forall|i: int|
                        0 <= i < button_index ==> (#[trigger] data_buffs@[i])@ == row_in(
                            bytes,
                            *header,
                            page,
                            i,
                        )
                },
            decreases header.bd_count - button_index,
        {
            match read_block::<C, ROW_SIZE>(config_file) {
                Ok(block) => {
                    data_buffs.push(block);
                },
                Err(e) => {
                    return Err(e);
                },
            }
            button_index = button_index + 1;
        }
        match seek_to(config_file, images_offset) {
            Ok(()) => {},
            Err(e) => {
                return Err(e);
            },
        }
        let mut images_buffs: Vec<[u8; IMAGE_SIZE]> = Vec::new();
        let mut button_index: u32 = 0;
        while button_index < header.bd_count
            invariant
                button_index <= header.bd_count,
                images_buffs@.len() == button_index,
                data_buffs@.len() == header.bd_count,
                data_offset == header.spec_data_offset(page),
                images_offset == header.spec_images_offset(page),
                bytes == old(config_file).bytes(),
                C::obeys_stream_model() ==> {
                    &&& config_file.bytes() == bytes
                    &&& data_offset + header.bd_count * ROW_SIZE as int <= bytes.len()
                    &&& config_file.position() == images_offset + button_index * IMAGE_SIZE as int
                    &&& config_file.position() <= bytes.len()
                    &&& forall|i: int|
                        0 <= i < header.bd_count ==> (#[trigger] data_buffs@[i])@ == row_in(
                            bytes,
                            *header,
                            page,
                            i,
                        )
                    &&& forall|i: int|
                        0 <= i < button_index ==> (#[trigger] images_buffs@[i])@ == image_in(
                            bytes,
                            *header,
                            page,
                            i,
                        )
                },
            decreases header.bd_count - button_index,
        {
            match read_block::<C, IMAGE_SIZE>(config_file) {
                Ok(block) => {
                    images_buffs.push(block);
                },
                Err(e) => {
                    return Err(e);
                },
            }
            button_index = button_index + 1;
        }
        let loaded = Page::from_buffers(&data_buffs, &images_buffs);
        Ok(loaded)
    }

    /// Replaces the loaded page by page `page` of the stream. Where loading
    /// fails, the page that was loaded stays.
    pub fn load_page(&mut self, page: u16) -> (r: Result<(), ConfigError>)
        ensures
            final(self).header == old(self).header,
            old(self).wf() ==> final(self).wf(),
            r is Ok ==> final(self).page.buttons@.len() == old(self).header.bd_count,
            r is Err ==> final(self).page == old(self).page,
            r matches Err(e) ==> e == ConfigError::OffsetOutOfRange || is_stream_error(e),
            r == Err::<(), ConfigError>(ConfigError::OffsetOutOfRange) <==> out_of_seek_range(
                old(self).header,
                page,
            ),
            out_of_seek_range(old(self).header, page) ==> *final(self) == *old(self),
            C::obeys_stream_model() ==> final(self).config_file.bytes() == old(
                self,
            ).config_file.bytes(),
            C::obeys_stream_model() ==> match load_failure(
                old(self).config_file.bytes().len() as int,
                old(self).header,
                page,
            ) {
                Some(e) => r == Err::<(), ConfigError>(e),
                None => r is Ok && is_page_of(
                    final(self).page,
                    old(self).config_file.bytes(),
                    old(self).header,
                    page,
                ),
            },
    {
        match Self::load_page_from_file(&mut self.config_file, &self.header, page) {
            Ok(loaded) => {
                self.page = loaded;
                Ok(())
            },
            Err(e) => Err(e),
        }
    }
}

} // verus!
