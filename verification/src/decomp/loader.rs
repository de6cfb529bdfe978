//! ELF loader serving the decompiler's `command_getbytes` memory reads.
//!
//! Only x86_64 ELF is accepted. A LOAD segment whose memory size exceeds
//! its file size has a zero-filled tail (BSS) that is not on disk; reads
//! there answer zeros, as a real loader would. A read that is not inside
//! one single LOAD segment (unmapped, or straddling a gap) is an error.

use vstd::prelude::*;

verus! {

/// ELF `p_type` of a loadable segment.
pub const PT_LOAD: u32 = 1;

/// ELF segment permission bit: executable.
pub const PF_X: u32 = 1;

/// ELF segment permission bit: writable.
pub const PF_W: u32 = 2;

/// ELF segment permission bit: readable.
pub const PF_R: u32 = 4;

/// ELF `e_machine` of x86_64.
pub const EM_X86_64: u16 = 62;

/// Architectures the loader recognizes.
#[derive(Debug, Clone, Copy, PartialEq, Eq)]
pub enum Architecture {
    Amd64,
}

/// A loadable program segment, as the runtime loader sees it. Bytes
/// `[filesz, memsz)` of the segment are its zero-filled BSS tail.
#[derive(Debug, Clone, Copy, PartialEq, Eq)]
pub struct Segment {
    /// Virtual address of the first byte of the segment.
    pub vaddr: u64,
    /// Bytes occupied in memory, BSS tail included.
    pub memsz: u64,
    /// Bytes present in the file.
    pub filesz: u64,
    /// Offset of the file-backed bytes in the image.
    pub file_offset: u64,
    /// `PF_R` / `PF_W` / `PF_X` bits.
    pub perms: u32,
}

impl Segment {
    /// Whether the read permission bit is set.
    pub fn is_readable(&self) -> (r: bool)
        ensures
            r == (self.perms & PF_R != 0),
    {
        self.perms & PF_R != 0
    }

    /// Whether the write permission bit is set.
    pub fn is_writable(&self) -> (r: bool)
        ensures
            r == (self.perms & PF_W != 0),
    {
        self.perms & PF_W != 0
    }

    /// Whether the execute permission bit is set.
    pub fn is_executable(&self) -> (r: bool)
        ensures
            r == (self.perms & PF_X != 0),
    {
        self.perms & PF_X != 0
    }
}

/// The fields of an ELF program header that the loader reads.
#[derive(Debug, Clone, Copy, PartialEq, Eq)]
pub struct ProgramHeaderInfo {
    pub p_type: u32,
    pub p_flags: u32,
    pub p_offset: u64,
    pub p_vaddr: u64,
    pub p_filesz: u64,
    pub p_memsz: u64,
}

/// The ELF header fields and program headers the loader reads.
#[derive(Debug, Clone, PartialEq, Eq)]
pub struct ElfSummary {
    pub e_machine: u16,
    pub e_entry: u64,
    pub program_headers: Vec<ProgramHeaderInfo>,
}

/// What an object-file parser made of an image.
#[derive(Debug, Clone, PartialEq, Eq)]
pub enum ParsedObject {
    Elf(ElfSummary),
    Pe,
    Mach,
    Archive,
    /// Any other format, COFF and unrecognized magic included.
    Other,
}

/// Mathematical model of [`ParsedObject`].
pub enum ObjectModel {
    Elf(u16, u64, Seq<ProgramHeaderInfo>),
    Pe,
    Mach,
    Archive,
    Other,
}

impl View for ParsedObject {
    type V = ObjectModel;

    open spec fn view(&self) -> ObjectModel {
        match self {
            ParsedObject::Elf(s) => ObjectModel::Elf(s.e_machine, s.e_entry, s.program_headers@),
            ParsedObject::Pe => ObjectModel::Pe,
            ParsedObject::Mach => ObjectModel::Mach,
            ParsedObject::Archive => ObjectModel::Archive,
            ParsedObject::Other => ObjectModel::Other,
        }
    }
}

/// The object formats other than ELF that a parse can find.
#[derive(Debug, Clone, Copy, PartialEq, Eq)]
pub enum ObjectFormat {
    Pe,
    Mach,
    Archive,
    Other,
}

/// Why an image could not be loaded or a read not be served.
#[derive(Debug, Clone, PartialEq, Eq)]
pub enum LoaderError {
    /// The object parser rejected the image; its message.
    Parse(String),
    /// The image is an object file, but not ELF.
    UnsupportedFormat(ObjectFormat),
    /// The ELF file is not for x86_64.
    UnsupportedMachine(u16),
    /// A LOAD segment claims more file bytes than memory bytes.
    MalformedSegment { vaddr: u64, filesz: u64, memsz: u64 },
    /// `vaddr + len` does not fit in 64 bits.
    AddressOverflow { vaddr: u64, len: usize },
    /// Both ends of the read are mapped, by different segments.
    StraddlesGap { start: u64, end: u64 },
    /// The read starts in a segment and runs past its end.
    PastSegmentEnd { start: u64, end: u64 },
    /// The read is not covered by any LOAD segment.
    NotCovered { start: u64, end: u64 },
    /// The file-backed bytes of the segment lie outside the image.
    SegmentOutsideImage { file_start: u64, file_end: u64, image_len: usize },
}

/// The text describing each loader error.
pub open spec fn loader_error_text(e: LoaderError) -> Seq<char> {
    match e {
        LoaderError::Parse(m) => "parsing object file via goblin: "@ + m@,
        LoaderError::UnsupportedFormat(_) => "unsupported object format (only ELF is supported)"@,
        LoaderError::UnsupportedMachine(_) => "unsupported ELF e_machine (only x86_64 / EM_X86_64 = 0x3e is supported)"@,
        LoaderError::MalformedSegment { .. } => "malformed ELF: PT_LOAD segment has filesz > memsz"@,
        LoaderError::AddressOverflow { .. } => "vaddr + len overflows u64"@,
        LoaderError::StraddlesGap { .. } => "read straddles an unmapped gap between LOAD segments"@,
        LoaderError::PastSegmentEnd { .. } => "read starts inside a LOAD segment but extends past its end into unmapped memory"@,
        LoaderError::NotCovered { .. } => "read is not covered by any LOAD segment"@,
        LoaderError::SegmentOutsideImage { .. } => "segment claims file bytes beyond the end of the image"@,
    }
}

impl LoaderError {
    /// A description of the error.
    pub fn message(&self) -> (r: String)
        ensures
            r@ == loader_error_text(*self),
    {
        match self {
            LoaderError::Parse(m) => {
                let mut t = "parsing object file via goblin: ".to_owned();
                t.append(m.as_str());
                t
            },
            LoaderError::UnsupportedFormat(_) => "unsupported object format (only ELF is supported)".to_owned(),
            LoaderError::UnsupportedMachine(_) => "unsupported ELF e_machine (only x86_64 / EM_X86_64 = 0x3e is supported)".to_owned(),
            LoaderError::MalformedSegment { .. } => "malformed ELF: PT_LOAD segment has filesz > memsz".to_owned(),
            LoaderError::AddressOverflow { .. } => "vaddr + len overflows u64".to_owned(),
            LoaderError::StraddlesGap { .. } => "read straddles an unmapped gap between LOAD segments".to_owned(),
            LoaderError::PastSegmentEnd { .. } => "read starts inside a LOAD segment but extends past its end into unmapped memory".to_owned(),
            LoaderError::NotCovered { .. } => "read is not covered by any LOAD segment".to_owned(),
            LoaderError::SegmentOutsideImage { .. } => "segment claims file bytes beyond the end of the image".to_owned(),
        }
    }
}

/// What goblin's format sniffing (`goblin::peek_bytes`) makes of the
/// first 16 bytes of an image.
#[derive(Debug, Clone, Copy, PartialEq, Eq)]
pub enum FormatHint {
    Elf,
    /// A Mach-O image or a fat (multi-architecture) Mach-O container.
    Mach,
    Archive,
    Pe,
    Coff,
    /// An unknown magic number.
    Unknown,
}

/// What `goblin::peek_bytes` answers for these 16 bytes.
pub uninterp spec fn goblin_hint(head: Seq<u8>) -> Result<FormatHint, Seq<char>>;

/// The format goblin sees in the first 16 bytes of an image.
///
/// Wraps `goblin::peek_bytes`, which compares the bytes with the ELF,
/// archive, DOS/PE, COFF and Mach-O magic numbers and reads them with
/// bounds-checked `scroll` reads; it returns on every 16-byte input. Its
/// result depends on those bytes alone, and the contract names it.
#[verifier::external_body]
fn peek_format(head: &[u8; 16]) -> (r: Result<FormatHint, String>)
    ensures
        match r {
            Ok(h) => goblin_hint(head@) == Ok::<FormatHint, Seq<char>>(h),
            Err(m) => goblin_hint(head@) == Err::<FormatHint, Seq<char>>(m@),
        },
{
    match goblin::peek_bytes(head) {
        Ok(goblin::Hint::Elf(_)) => Ok(FormatHint::Elf),
        Ok(goblin::Hint::Mach(_)) => Ok(FormatHint::Mach),
        Ok(goblin::Hint::MachFat(_)) => Ok(FormatHint::Mach),
        Ok(goblin::Hint::Archive) => Ok(FormatHint::Archive),
        Ok(goblin::Hint::PE) => Ok(FormatHint::Pe),
        Ok(goblin::Hint::COFF) => Ok(FormatHint::Coff),
        Ok(_) => Ok(FormatHint::Unknown),
        Err(e) => Err(e.to_string()),
    }
}

/// The ELF header fields the loader reads.
#[derive(Debug, Clone, Copy, PartialEq, Eq)]
pub struct ElfHeaderInfo {
    pub e_machine: u16,
    pub e_entry: u64,
    pub e_phoff: u64,
    pub e_phnum: u16,
    /// `e_ident[EI_CLASS]`: 1 for 32-bit, 2 for 64-bit.
    pub class: u8,
    /// `e_ident[EI_DATA]`: 1 for little-endian, 2 for big-endian.
    pub data: u8,
}

/// What `goblin::elf::Elf::parse_header` answers for an image.
pub uninterp spec fn goblin_elf_header(image: Seq<u8>) -> Result<ElfHeaderInfo, Seq<char>>;

/// The ELF header of an image.
///
/// Wraps `goblin::elf::Elf::parse_header`, which checks the length, the
/// magic, the class and the byte order and reads the header fields with
/// bounds-checked `scroll` reads, returning an error rather than
/// panicking on a short or malformed header. Its result depends on the
/// bytes alone, and the contract names it.
#[verifier::external_body]
fn parse_elf_header(image: &[u8]) -> (r: Result<ElfHeaderInfo, String>)
    ensures
        match r {
            Ok(h) => goblin_elf_header(image@) == Ok::<ElfHeaderInfo, Seq<char>>(h),
            Err(m) => goblin_elf_header(image@) == Err::<ElfHeaderInfo, Seq<char>>(m@),
        },
{
    match goblin::elf::Elf::parse_header(image) {
        Ok(h) => Ok(ElfHeaderInfo {
            e_machine: h.e_machine,
            e_entry: h.e_entry,
            e_phoff: h.e_phoff,
            e_phnum: h.e_phnum,
            class: h.e_ident[4],
            data: h.e_ident[5],
        }),
        Err(e) => Err(e.to_string()),
    }
}

/// What `goblin::elf::ProgramHeader::parse` answers for an image, a
/// table offset and entry count, the word size (64-bit or not) and the
/// byte order (little-endian or not).
pub uninterp spec fn goblin_program_headers(
    image: Seq<u8>,
    phoff: usize,
    phnum: u16,
    is_64: bool,
    little_endian: bool,
) -> Result<Seq<ProgramHeaderInfo>, Seq<char>>;

/// The program headers of an ELF image.
///
/// Wraps `goblin::elf::ProgramHeader::parse`, which refuses a count the
/// image cannot hold and reads each entry with bounds-checked `scroll`
/// reads, returning an error rather than panicking. The table offset is
/// taken as a `usize`, as goblin's own ELF parser passes it. Its result depends on
/// its arguments alone, and the contract names it.
#[verifier::external_body]
fn parse_program_headers(image: &[u8], phoff: usize, phnum: u16, is_64: bool, little_endian: bool) -> (r: Result<
    Vec<ProgramHeaderInfo>,
    String,
>)
    ensures
        match r {
            Ok(v) => goblin_program_headers(image@, phoff, phnum, is_64, little_endian) == Ok::<
                Seq<ProgramHeaderInfo>,
                Seq<char>,
            >(v@),
            Err(m) => goblin_program_headers(image@, phoff, phnum, is_64, little_endian) == Err::<
                Seq<ProgramHeaderInfo>,
                Seq<char>,
            >(m@),
        },
{
    let container = if is_64 { goblin::container::Container::Big } else { goblin::container::Container::Little };
    let endian = if little_endian { goblin::container::Endian::Little } else { goblin::container::Endian::Big };
    let ctx = goblin::container::Ctx::new(container, endian);
    match goblin::elf::ProgramHeader::parse(image, phoff, phnum as usize, ctx) {
        Ok(hs) => Ok(hs.iter().map(|p| ProgramHeaderInfo {
            p_type: p.p_type, p_flags: p.p_flags, p_offset: p.p_offset,
            p_vaddr: p.p_vaddr, p_filesz: p.p_filesz, p_memsz: p.p_memsz }).collect()),
        Err(e) => Err(e.to_string()),
    }
}

/// What the loader makes of an image: too short to sniff, the sniffing
/// error, the parse error of the ELF header or program headers, a parsed
/// ELF image, or another format (which is not parsed further).
pub open spec fn parsed_image(image: Seq<u8>) -> Result<ObjectModel, Seq<char>> {
    if image.len() < 16 {
        Err("Malformed entity: Object is too small."@)
    } else {
        match goblin_hint(image.take(16)) {
            Err(m) => Err(m),
            Ok(FormatHint::Elf) => match goblin_elf_header(image) {
                Err(m) => Err(m),
                Ok(h) => match goblin_program_headers(image, h.e_phoff as usize, h.e_phnum, h.class == 2, h.data == 1) {
                    Err(m) => Err(m),
                    Ok(hs) => Ok(ObjectModel::Elf(h.e_machine, h.e_entry, hs)),
                },
            },
            Ok(FormatHint::Mach) => Ok(ObjectModel::Mach),
            Ok(FormatHint::Archive) => Ok(ObjectModel::Archive),
            Ok(FormatHint::Pe) => Ok(ObjectModel::Pe),
            Ok(_) => Ok(ObjectModel::Other),
        }
    }
}

/// Sniffs the format of an image and, for ELF only, parses its header
/// and program headers.
fn parse_object(image: &[u8]) -> (r: Result<ParsedObject, String>)
    ensures
        match r {
            Ok(o) => parsed_image(image@) == Ok::<ObjectModel, Seq<char>>(o@),
            Err(m) => parsed_image(image@) == Err::<ObjectModel, Seq<char>>(m@),
        },
{
    if image.len() < 16 {
        return Err("Malformed entity: Object is too small.".to_owned());
    }
    let mut head: [u8; 16] = [0u8; 16];
    let mut i: usize = 0;
    while i < 16
        invariant
            16 <= image@.len(),
            i <= 16,
            forall|k: int| 0 <= k < i ==> head@[k] == image@[k],
        decreases 16 - i,
    {
        head[i] = image[i];
        i = i + 1;
    }
    assert(head@ =~= image@.take(16));
    match peek_format(&head) {
        Err(m) => Err(m),
        Ok(FormatHint::Elf) => {
            let h = match parse_elf_header(image) {
                Ok(h) => h,
                Err(m) => return Err(m),
            };
            match parse_program_headers(image, h.e_phoff as usize, h.e_phnum, h.class == 2, h.data == 1) {
                Ok(hs) => Ok(ParsedObject::Elf(ElfSummary { e_machine: h.e_machine, e_entry: h.e_entry, program_headers: hs })),
                Err(m) => Err(m),
            }
        },
        Ok(FormatHint::Mach) => Ok(ParsedObject::Mach),
        Ok(FormatHint::Archive) => Ok(ParsedObject::Archive),
        Ok(FormatHint::Pe) => Ok(ParsedObject::Pe),
        Ok(_) => Ok(ParsedObject::Other),
    }
}

/// The segment a LOAD program header describes.
pub open spec fn segment_of(h: ProgramHeaderInfo) -> Segment {
    Segment {
        vaddr: h.p_vaddr,
        memsz: h.p_memsz,
        filesz: h.p_filesz,
        file_offset: h.p_offset,
        perms: h.p_flags,
    }
}

/// The segments of the LOAD headers among `hs`, in order; the first
/// LOAD header with more file than memory bytes is an error.
pub open spec fn load_segments(hs: Seq<ProgramHeaderInfo>) -> Result<Seq<Segment>, LoaderError>
    decreases hs.len(),
{
    if hs.len() == 0 {
        Ok(Seq::empty())
    } else {
        match load_segments(hs.drop_last()) {
            Err(e) => Err(e),
            Ok(segs) => {
                let h = hs.last();
                if h.p_type != PT_LOAD {
                    Ok(segs)
                } else if h.p_filesz > h.p_memsz {
                    Err(
                        LoaderError::MalformedSegment {
                            vaddr: h.p_vaddr,
                            filesz: h.p_filesz,
                            memsz: h.p_memsz,
                        },
                    )
                } else {
                    Ok(segs.push(segment_of(h)))
                }
            },
        }
    }
}

/// x86_64 ELF loader: the image bytes and its LOAD segments.
#[derive(Debug)]
pub struct ElfLoader {
    image: Vec<u8>,
    segments: Vec<Segment>,
    entry: u64,
    arch: Architecture,
}

/// The first index of `segs` whose segment holds all of `[vaddr, end)`.
pub open spec fn covers(s: Segment, vaddr: u64, end: u64) -> bool {
    s.vaddr <= vaddr && end <= s.vaddr + s.memsz
}

/// `addr` lies inside segment `s`, whose end address saturates at
/// `u64::MAX`.
pub open spec fn holds(s: Segment, addr: int) -> bool {
    s.vaddr <= addr < (if s.vaddr + s.memsz <= u64::MAX { s.vaddr + s.memsz } else { u64::MAX as int })
}

/// Index of the first segment covering `[vaddr, end)`.
pub open spec fn first_cover(segs: Seq<Segment>, vaddr: u64, end: u64, i: int) -> bool {
    &&& 0 <= i < segs.len()
    &&& covers(segs[i], vaddr, end)
    &&& forall|j: int| 0 <= j < i ==> !covers(#[trigger] segs[j], vaddr, end)
}

/// What a read of `len` bytes at `vaddr` answers, given the segments
/// and the image.
pub open spec fn spec_read(image: Seq<u8>, segs: Seq<Segment>, vaddr: u64, len: usize) -> Result<
    Seq<u8>,
    LoaderError,
> {
    if len == 0 {
        Ok(Seq::empty())
    } else if vaddr + len > u64::MAX {
        Err(LoaderError::AddressOverflow { vaddr, len })
    } else {
        let end = (vaddr + len) as u64;
        if exists|i: int| first_cover(segs, vaddr, end, i) {
            let i = choose|i: int| first_cover(segs, vaddr, end, i);
            let s = segs[i];
            let off = vaddr - s.vaddr;
            if off < s.filesz {
                let n = if s.filesz - off < len { s.filesz - off } else { len as int };
                let fstart = s.file_offset + off;
                if fstart + n > image.len() {
                    Err(
                        LoaderError::SegmentOutsideImage {
                            file_start: (if fstart <= u64::MAX { fstart } else { u64::MAX as int }) as u64,
                            file_end: (if fstart + n <= u64::MAX { fstart + n } else { u64::MAX as int }) as u64,
                            image_len: image.len() as usize,
                        },
                    )
                } else {
                    Ok(Seq::new(len as nat, |k: int| if k < n { image[fstart + k] } else { 0u8 }))
                }
            } else {
                Ok(Seq::new(len as nat, |k: int| 0u8))
            }
        } else {
            let start_in = exists|i: int| 0 <= i < segs.len() && holds(#[trigger] segs[i], vaddr as int);
            let end_in = exists|i: int| 0 <= i < segs.len() && holds(#[trigger] segs[i], end - 1);
            if start_in && end_in {
                Err(LoaderError::StraddlesGap { start: vaddr, end })
            } else if start_in {
                Err(LoaderError::PastSegmentEnd { start: vaddr, end })
            } else {
                Err(LoaderError::NotCovered { start: vaddr, end })
            }
        }
    }
}

/// `a + b`, or `u64::MAX` when that overflows.
fn saturating_add(a: u64, b: u64) -> (r: u64)
    ensures
        r == if a + b <= u64::MAX { a + b } else { u64::MAX as int },
{
    if a <= u64::MAX - b {
        a + b
    } else {
        u64::MAX
    }
}

/// What loading an image with the given parse result answers.
pub open spec fn load_outcome(image: Seq<u8>, o: ObjectModel, r: Result<ElfLoader, LoaderError>) -> bool {
    match o {
        ObjectModel::Elf(machine, entry, hs) => if machine != EM_X86_64 {
            r == Err::<ElfLoader, LoaderError>(LoaderError::UnsupportedMachine(machine))
        } else {
            match load_segments(hs) {
                Ok(segs) => r matches Ok(l) && l.image() == image && l.spec_segments() == segs
                    && l.spec_entry() == entry,
                Err(e) => r == Err::<ElfLoader, LoaderError>(e),
            }
        },
        ObjectModel::Pe => r == Err::<ElfLoader, LoaderError>(
            LoaderError::UnsupportedFormat(ObjectFormat::Pe),
        ),
        ObjectModel::Mach => r == Err::<ElfLoader, LoaderError>(
            LoaderError::UnsupportedFormat(ObjectFormat::Mach),
        ),
        ObjectModel::Archive => r == Err::<ElfLoader, LoaderError>(
            LoaderError::UnsupportedFormat(ObjectFormat::Archive),
        ),
        ObjectModel::Other => r == Err::<ElfLoader, LoaderError>(
            LoaderError::UnsupportedFormat(ObjectFormat::Other),
        ),
    }
}

impl ElfLoader {
    /// The image bytes.
    pub closed spec fn image(&self) -> Seq<u8> {
        self.image@
    }

    /// The LOAD segments, in program-header order.
    pub closed spec fn spec_segments(&self) -> Seq<Segment> {
        self.segments@
    }

    /// The entry point recorded in the ELF header.
    pub closed spec fn spec_entry(&self) -> u64 {
        self.entry
    }

    /// Builds a loader from an image and what the object parser made of
    /// it: only x86_64 ELF is accepted, and its LOAD headers must not
    /// claim more file than memory bytes.
    pub fn from_parsed(image: Vec<u8>, parsed: ParsedObject) -> (r: Result<ElfLoader, LoaderError>)
        ensures
            load_outcome(image@, parsed@, r),
    {
        let ghost model = parsed@;
        let elf = match parsed {
            ParsedObject::Elf(s) => s,
            ParsedObject::Pe => return Err(LoaderError::UnsupportedFormat(ObjectFormat::Pe)),
            ParsedObject::Mach => return Err(LoaderError::UnsupportedFormat(ObjectFormat::Mach)),
            ParsedObject::Archive => return Err(
                LoaderError::UnsupportedFormat(ObjectFormat::Archive),
            ),
            ParsedObject::Other => return Err(LoaderError::UnsupportedFormat(ObjectFormat::Other)),
        };
        if elf.e_machine != EM_X86_64 {
            return Err(LoaderError::UnsupportedMachine(elf.e_machine));
        }
        let hs = &elf.program_headers;
        let mut segments: Vec<Segment> = Vec::new();
        let mut i: usize = 0;
        while i < hs.len()
            invariant
                model == ObjectModel::Elf(elf.e_machine, elf.e_entry, hs@),
                model == parsed@,
                elf.e_machine == EM_X86_64,
                i <= hs@.len(),
                load_segments(hs@.take(i as int)) == Ok::<Seq<Segment>, LoaderError>(segments@),
            decreases hs.len() - i,
        {
            let h = hs[i];
            assert(hs@.take(i + 1).drop_last() =~= hs@.take(i as int));
            if h.p_type == PT_LOAD {
                if h.p_filesz > h.p_memsz {
                    proof {
                        lemma_load_segments_err_prefix(hs@, (i + 1) as int);
                        lemma_load_segments_err_extends(hs@, (i + 1) as int, hs@.len() as int);
                        assert(hs@.take(hs@.len() as int) =~= hs@);
                        assert(load_segments(hs@) == Err::<Seq<Segment>, LoaderError>(
                            LoaderError::MalformedSegment {
                                vaddr: h.p_vaddr,
                                filesz: h.p_filesz,
                                memsz: h.p_memsz,
                            },
                        ));
                    }
                    return Err(
                        LoaderError::MalformedSegment {
                            vaddr: h.p_vaddr,
                            filesz: h.p_filesz,
                            memsz: h.p_memsz,
                        },
                    );
                }
                segments.push(
                    Segment {
                        vaddr: h.p_vaddr,
                        memsz: h.p_memsz,
                        filesz: h.p_filesz,
                        file_offset: h.p_offset,
                        perms: h.p_flags,
                    },
                );
            }
            i = i + 1;
        }
        assert(hs@.take(hs.len() as int) =~= hs@);
        Ok(ElfLoader { image, segments, entry: elf.e_entry, arch: Architecture::Amd64 })
    }

    /// Sniffs the format of `image` and builds a loader from it; see
    /// [`ElfLoader::from_parsed`]. Only an ELF image is parsed (its
    /// header and program headers, with goblin); an image of another
    /// format is refused as unsupported without being parsed.
    pub fn from_bytes(image: Vec<u8>) -> (r: Result<ElfLoader, LoaderError>)
        ensures
            match parsed_image(image@) {
                Ok(o) => load_outcome(image@, o, r),
                Err(m) => r matches Err(LoaderError::Parse(s)) && s@ == m,
            },
    {
        match parse_object(image.as_slice()) {
            Ok(parsed) => ElfLoader::from_parsed(image, parsed),
            Err(msg) => Err(LoaderError::Parse(msg)),
        }
    }

    /// The entry point recorded in the ELF header.
    pub fn entry_point(&self) -> (r: u64)
        ensures
            r == self.spec_entry(),
    {
        self.entry
    }

    /// The LOAD segments, in program-header order.
    pub fn segments(&self) -> (r: &[Segment])
        ensures
            r@ == self.spec_segments(),
    {
        self.segments.as_slice()
    }

    /// The architecture of the image.
    pub fn architecture(&self) -> (r: Architecture)
        ensures
            r == Architecture::Amd64,
    {
        self.arch
    }

    /// Reads `len` bytes of program memory at `vaddr`.
    ///
    /// A zero-length read always succeeds. Otherwise the whole range
    /// must lie in one LOAD segment (the first such in header order
    /// serves it): file-backed bytes come from the image, BSS bytes are
    /// zero. Ranges that overflow, are unmapped, or straddle a gap are
    /// errors telling which.
    pub fn read_bytes(&self, vaddr: u64, len: usize) -> (r: Result<Vec<u8>, LoaderError>)
        ensures
            match spec_read(self.image(), self.spec_segments(), vaddr, len) {
                Ok(b) => r matches Ok(v) && v@ == b,
                Err(e) => r == Err::<Vec<u8>, LoaderError>(e),
            },
    {
        if len == 0 {
            return Ok(Vec::new());
        }
        if vaddr > u64::MAX - (len as u64) {
            return Err(LoaderError::AddressOverflow { vaddr, len });
        }
        let end = vaddr + (len as u64);
        let ghost segs = self.segments@;
        let idx = match self.find_covering(vaddr, end) {
            Some(i) => i,
            None => {
                let start_in = self.any_segment_holds(vaddr);
                let end_in = self.any_segment_holds(end - 1);
                if start_in && end_in {
                    return Err(LoaderError::StraddlesGap { start: vaddr, end });
                } else if start_in {
                    return Err(LoaderError::PastSegmentEnd { start: vaddr, end });
                } else {
                    return Err(LoaderError::NotCovered { start: vaddr, end });
                }
            },
        };
        proof {
            assert forall|i: int| first_cover(segs, vaddr, end, i) implies i == idx by {
                if i < idx {
                } else if i > idx {
                    assert(!covers(segs[idx as int], vaddr, end));
                }
            }
        }
        let seg = self.segments[idx];
        let off = vaddr - seg.vaddr;
        let mut out: Vec<u8> = Vec::new();
        let mut k: usize = 0;
        while k < len
            invariant
                k <= len,
                out@ =~= Seq::new(k as nat, |j: int| 0u8),
            decreases len - k,
        {
            out.push(0);
            k = k + 1;
        }
        if off < seg.filesz {
            let avail = seg.filesz - off;
            let n: u64 = if avail < len as u64 { avail } else { len as u64 };
            if seg.file_offset > u64::MAX - off {
                return Err(
                    LoaderError::SegmentOutsideImage {
                        file_start: u64::MAX,
                        file_end: u64::MAX,
                        image_len: self.image.len(),
                    },
                );
            }
            let fstart = seg.file_offset + off;
            if fstart > u64::MAX - n {
                return Err(
                    LoaderError::SegmentOutsideImage {
                        file_start: fstart,
                        file_end: u64::MAX,
                        image_len: self.image.len(),
                    },
                );
            }
            let fend = fstart + n;
            if fend > self.image.len() as u64 {
                return Err(
                    LoaderError::SegmentOutsideImage {
                        file_start: fstart,
                        file_end: fend,
                        image_len: self.image.len(),
                    },
                );
            }
            let start = fstart as usize;
            let count = n as usize;
            let mut j: usize = 0;
            while j < count
                invariant
                    j <= count,
                    count <= len,
                    out@.len() == len,
                    start + count <= self.image@.len(),
                    forall|t: int|
                        0 <= t < len ==> #[trigger] out@[t] == if t < j {
                            self.image@[start + t]
                        } else {
                            0u8
                        },
                decreases count - j,
            {
                assert(start + j < self.image.len());
                out.set(j, self.image[start + j]);
                j = j + 1;
            }
            assert(out@ =~= Seq::new(
                len as nat,
                |t: int| if t < count { self.image@[start + t] } else { 0u8 },
            ));
        }
        Ok(out)
    }

    /// The first segment covering `[vaddr, end)`, if any.
    fn find_covering(&self, vaddr: u64, end: u64) -> (r: Option<usize>)
        ensures
            r matches Some(i) ==> first_cover(self.spec_segments(), vaddr, end, i as int),
            r is None ==> forall|i: int| !first_cover(self.spec_segments(), vaddr, end, i),
    {
        let mut idx: usize = 0;
        while idx < self.segments.len()
            invariant
                idx <= self.segments@.len(),
                forall|j: int| 0 <= j < idx ==> !covers(#[trigger] self.segments@[j], vaddr, end),
            decreases self.segments@.len() - idx,
        {
            let s = self.segments[idx];
            if s.vaddr <= vaddr && end <= saturating_add(s.vaddr, s.memsz) {
                return Some(idx);
            }
            idx = idx + 1;
        }
        proof {
            assert forall|i: int| !first_cover(self.spec_segments(), vaddr, end, i) by {
                if 0 <= i < self.segments@.len() {
                    assert(!covers(self.segments@[i], vaddr, end));
                }
            }
        }
        None
    }

    /// Whether some segment holds `addr`.
    fn any_segment_holds(&self, addr: u64) -> (r: bool)
        ensures
            r == exists|i: int|
                0 <= i < self.spec_segments().len() && holds(
                    #[trigger] self.spec_segments()[i],
                    addr as int,
                ),
    {
        let mut i: usize = 0;
        while i < self.segments.len()
            invariant
                i <= self.segments@.len(),
                forall|j: int| 0 <= j < i ==> !holds(#[trigger] self.segments@[j], addr as int),
            decreases self.segments@.len() - i,
        {
            let s = self.segments[i];
            if s.vaddr <= addr && addr < saturating_add(s.vaddr, s.memsz) {
                assert(holds(self.spec_segments()[i as int], addr as int));
                return true;
            }
            i = i + 1;
        }
        false
    }
}

/// Once a prefix of headers fails, every longer prefix fails the same
/// way.
proof fn lemma_load_segments_err_extends(hs: Seq<ProgramHeaderInfo>, k: int, j: int)
    requires
        0 <= k <= j <= hs.len(),
        load_segments(hs.take(k)) is Err,
    ensures
        load_segments(hs.take(j)) == load_segments(hs.take(k)),
    decreases j - k,
{
    if j > k {
        lemma_load_segments_err_extends(hs, k, j - 1);
        assert(hs.take(j).drop_last() =~= hs.take(j - 1));
    }
}

/// A LOAD header with more file than memory bytes fails the prefix it
/// ends.
proof fn lemma_load_segments_err_prefix(hs: Seq<ProgramHeaderInfo>, k: int)
    requires
        0 < k <= hs.len(),
        load_segments(hs.take(k - 1)) is Ok,
        hs[k - 1].p_type == PT_LOAD,
        hs[k - 1].p_filesz > hs[k - 1].p_memsz,
    ensures
        load_segments(hs.take(k)) == Err::<Seq<Segment>, LoaderError>(
            LoaderError::MalformedSegment {
                vaddr: hs[k - 1].p_vaddr,
                filesz: hs[k - 1].p_filesz,
                memsz: hs[k - 1].p_memsz,
            },
        ),
{
    assert(hs.take(k).drop_last() =~= hs.take(k - 1));
}

} // verus!
