//! The native grid text format: a raw dump of the fuse array, one text
//! line of `0`/`1` characters per row, with optional comment lines and
//! one recognized directive, `// DEVICE <part>`.

use vstd::prelude::*;

use crate::bitstream::Coolrunner2;
use crate::partdb::{XC2Device, XC2Part};
use crate::partname::{parse_part_bytes, part_name_bytes, spec_parse_part, spec_part_name};

verus! {

/// Errors of the native grid text format.
#[derive(Clone, Copy, PartialEq, Eq, Structural, Debug)]
pub enum CrbitFormatError {
    /// A data line holds something besides `0` and `1`.
    InvalidCharacter,
    /// The input holds no data lines at all.
    NoData,
    /// The `// DEVICE` directive names no valid part.
    InvalidPartName,
    /// The data does not match the named or any known device geometry.
    InvalidBitCount,
}

/// Whitespace trimmed from line ends.
pub open spec fn spec_is_ws(b: u8) -> bool {
    b == 32 || b == 13 || b == 10
}

/// First position of byte `b` at or after `from`, or the length.
pub open spec fn spec_find_byte(s: Seq<u8>, b: u8, from: int) -> int
    decreases s.len() - from,
{
    if from < 0 || from >= s.len() {
        s.len() as int
    } else if s[from] == b {
        from
    } else {
        spec_find_byte(s, b, from + 1)
    }
}

/// First non-whitespace position in `[i, b)`.
pub open spec fn spec_trim_lo(s: Seq<u8>, i: int, b: int) -> int
    decreases b - i,
{
    if i < b && 0 <= i < s.len() && spec_is_ws(s[i]) {
        spec_trim_lo(s, i + 1, b)
    } else {
        i
    }
}

/// Position after the last non-whitespace byte in `[a, j)`.
pub open spec fn spec_trim_hi(s: Seq<u8>, a: int, j: int) -> int
    decreases j - a,
{
    if j > a && 0 <= j - 1 < s.len() && spec_is_ws(s[j - 1]) {
        spec_trim_hi(s, a, j - 1)
    } else {
        j
    }
}

/// The bytes of the `// DEVICE ` directive prefix.
pub open spec fn spec_device_prefix() -> Seq<u8> {
    seq![47u8, 47, 32, 68, 69, 86, 73, 67, 69, 32]
}

/// Scanner state while reading the text, line by line.
pub ghost struct CrbitScan {
    /// Bits collected from the data lines, in order.
    pub bits: Seq<bool>,
    /// Length of the first data line.
    pub width: Option<int>,
    /// Payload of the last `// DEVICE` directive seen.
    pub dev: Option<Seq<u8>>,
    /// Whether a data line held an invalid character.
    pub bad: bool,
}

/// Effect of one line, `s[a..b]`, on the scanner state.
pub open spec fn spec_crbit_step(s: Seq<u8>, a: int, b: int, st: CrbitScan) -> CrbitScan {
    let lo = spec_trim_lo(s, a, b);
    let hi = spec_trim_hi(s, lo, b);
    if lo >= hi {
        st
    } else if hi - lo >= 10 && s.subrange(lo, lo + 10) == spec_device_prefix() {
        CrbitScan { dev: Some(s.subrange(lo + 10, hi)), ..st }
    } else if hi - lo >= 2 && s[lo] == 47 && s[lo + 1] == 47 {
        st
    } else if forall|k: int| lo <= k < hi ==> s[k] == 48 || s[k] == 49 {
        CrbitScan {
            bits: st.bits + Seq::new((hi - lo) as nat, |k: int| s[lo + k] == 49),
            width: if st.width is None {
                Some(hi - lo)
            } else {
                st.width
            },
            ..st
        }
    } else {
        CrbitScan { bad: true, ..st }
    }
}

/// Scan the text from position `pos` onward, one line per step.
pub open spec fn spec_crbit_scan(s: Seq<u8>, pos: int, st: CrbitScan) -> CrbitScan
    decreases s.len() - pos,
{
    if pos >= s.len() || pos < 0 {
        st
    } else {
        let e = spec_find_byte(s, 10, pos);
        let st2 = spec_crbit_step(s, pos, e, st);
        if pos <= e < s.len() {
            spec_crbit_scan(s, e + 1, st2)
        } else {
            st2
        }
    }
}

pub open spec fn spec_crbit_scan_init() -> CrbitScan {
    CrbitScan { bits: Seq::empty(), width: None, dev: None, bad: false }
}

/// Device guessed from an unannotated dump's line width and bit count.
pub open spec fn spec_crbit_guess(w: int, total: int) -> Option<XC2Device> {
    if w == 260 && total == 260 * 50 {
        Some(XC2Device::XC2C32A)
    } else if w == 274 && total == 274 * 98 {
        Some(XC2Device::XC2C64A)
    } else if w == 752 && total == 752 * 82 {
        Some(XC2Device::XC2C128)
    } else if w == 1364 && total == 1364 * 98 {
        Some(XC2Device::XC2C256)
    } else if w == 1868 && total == 1868 * 122 {
        Some(XC2Device::XC2C384)
    } else if w == 1980 && total == 1980 * 162 {
        Some(XC2Device::XC2C512)
    } else {
        None
    }
}

/// Outcome of parsing a native grid text: the part and the grid bits, or
/// the first applicable error.
pub open spec fn spec_read_crbit(s: Seq<u8>) -> Result<(XC2Part, Seq<bool>), CrbitFormatError> {
    let st = spec_crbit_scan(s, 0, spec_crbit_scan_init());
    if st.bad {
        Err(CrbitFormatError::InvalidCharacter)
    } else {
        match st.width {
            None => Err(CrbitFormatError::NoData),
            Some(w) => match st.dev {
                Some(ds) => match spec_parse_part(ds) {
                    None => Err(CrbitFormatError::InvalidPartName),
                    Some(part) => {
                        let dims = part.device.spec_fuse_array_dims();
                        if dims.0 == w && st.bits.len() == dims.0 * dims.1 {
                            Ok((part, st.bits))
                        } else {
                            Err(CrbitFormatError::InvalidBitCount)
                        }
                    },
                },
                None => match spec_crbit_guess(w, st.bits.len() as int) {
                    Some(device) => Ok(
                        (XC2Part { device, speed: None, package: None }, st.bits),
                    ),
                    None => Err(CrbitFormatError::InvalidBitCount),
                },
            },
        }
    }
}

/// A set `bad` flag survives the rest of the scan.
proof fn lemma_scan_bad_persists(s: Seq<u8>, pos: int, st: CrbitScan)
    requires
        st.bad,
    ensures
        spec_crbit_scan(s, pos, st).bad,
    decreases s.len() - pos,
{
    if 0 <= pos < s.len() {
        let e = spec_find_byte(s, 10, pos);
        lemma_find_byte_range(s, 10, pos);
        if pos <= e < s.len() {
            lemma_scan_bad_persists(s, e + 1, spec_crbit_step(s, pos, e, st));
        }
    }
}

proof fn lemma_find_byte_range(s: Seq<u8>, b: u8, from: int)
    requires
        0 <= from <= s.len(),
    ensures
        from <= spec_find_byte(s, b, from) <= s.len(),
    decreases s.len() - from,
{
    if from < s.len() && s[from] != b {
        lemma_find_byte_range(s, b, from + 1);
    }
}

pub(crate) fn find_byte(s: &[u8], b: u8, from: usize) -> (r: usize)
    requires
        from <= s@.len(),
    ensures
        r == spec_find_byte(s@, b, from as int),
        from <= r <= s@.len(),
        r < s@.len() ==> s@[r as int] == b,
    decreases s@.len() - from,
{
    let mut i: usize = from;
    while i < s.len()
        invariant
            from <= i <= s@.len(),
            spec_find_byte(s@, b, from as int) == spec_find_byte(s@, b, i as int),
        decreases s@.len() - i,
    {
        if s[i] == b {
            return i;
        }
        i += 1;
    }
    i
}

pub(crate) fn trim_lo(s: &[u8], a: usize, b: usize) -> (r: usize)
    requires
        a <= b <= s@.len(),
    ensures
        r == spec_trim_lo(s@, a as int, b as int),
        a <= r <= b,
    decreases s@.len() - a,
{
    let mut i: usize = a;
    while i < b && (s[i] == 32 || s[i] == 13 || s[i] == 10)
        invariant
            a <= i <= b <= s@.len(),
            spec_trim_lo(s@, a as int, b as int) == spec_trim_lo(s@, i as int, b as int),
        decreases b - i,
    {
        i += 1;
    }
    i
}

pub(crate) fn trim_hi(s: &[u8], a: usize, b: usize) -> (r: usize)
    requires
        a <= b <= s@.len(),
    ensures
        r == spec_trim_hi(s@, a as int, b as int),
        a <= r <= b,
    decreases b,
{
    let mut j: usize = b;
    while j > a && (s[j - 1] == 32 || s[j - 1] == 13 || s[j - 1] == 10)
        invariant
            a <= j <= b <= s@.len(),
            spec_trim_hi(s@, a as int, b as int) == spec_trim_hi(s@, a as int, j as int),
        decreases j,
    {
        j -= 1;
    }
    j
}

pub(crate) fn copy_range(s: &[u8], a: usize, b: usize) -> (r: Vec<u8>)
    requires
        a <= b <= s@.len(),
    ensures
        r@ == s@.subrange(a as int, b as int),
    decreases b - a,
{
    let mut v: Vec<u8> = Vec::new();
    let mut i: usize = a;
    while i < b
        invariant
            a <= i <= b <= s@.len(),
            v@ =~= s@.subrange(a as int, i as int),
        decreases b - i,
    {
        v.push(s[i]);
        proof {
            assert(v@ =~= s@.subrange(a as int, i + 1));
        }
        i += 1;
    }
    v
}

/// Whether `s[a..b]` holds only `0` and `1` bytes.
fn all_binary(s: &[u8], a: usize, b: usize) -> (r: bool)
    requires
        a <= b <= s@.len(),
    ensures
        r == (forall|k: int| a <= k < b ==> s@[k] == 48 || s@[k] == 49),
{
    let mut i: usize = a;
    while i < b
        invariant
            a <= i <= b <= s@.len(),
            forall|k: int| a <= k < i ==> s@[k] == 48 || s@[k] == 49,
        decreases b - i,
    {
        if s[i] != 48 && s[i] != 49 {
            return false;
        }
        i += 1;
    }
    true
}

/// Whether `s[lo..lo + 10]` is the `// DEVICE ` directive prefix.
fn device_prefix_at(s: &[u8], lo: usize) -> (r: bool)
    requires
        lo + 10 <= s@.len(),
    ensures
        r == (s@.subrange(lo as int, lo + 10) == spec_device_prefix()),
{
    let n = s.len();
    let pfx: [u8; 10] = [47, 47, 32, 68, 69, 86, 73, 67, 69, 32];
    proof {
        assert(pfx@ =~= spec_device_prefix());
    }
    let mut k: usize = 0;
    while k < 10
        invariant
            lo + 10 <= s@.len(),
            s@.len() <= usize::MAX,
            k <= 10,
            pfx@ =~= spec_device_prefix(),
            forall|j: int| 0 <= j < k ==> s@[lo + j] == spec_device_prefix()[j],
        decreases 10 - k,
    {
        if s[lo + k] != pfx[k] {
            proof {
                assert(s@.subrange(lo as int, lo + 10)[k as int] != spec_device_prefix()[k as int]);
            }
            return false;
        }
        k += 1;
    }
    proof {
        assert(s@.subrange(lo as int, lo + 10) =~= spec_device_prefix());
    }
    true
}

/// Parse a native grid text into a device model.
#[verifier::rlimit(100)]
pub fn read_crbit(data: &[u8]) -> (r: Result<Coolrunner2, CrbitFormatError>)
    ensures
        ({
            match spec_read_crbit(data@) {
                Ok((part, bits)) => {
                    &&& r is Ok
                    &&& r->Ok_0.part == part
                    &&& r->Ok_0.grid() == bits
                    &&& r->Ok_0.wf()
                },
                Err(e) => r == Err::<Coolrunner2, CrbitFormatError>(e),
            }
        }),
{
    let mut bits: Vec<bool> = Vec::new();
    let mut width: Option<usize> = None;
    let mut dev: Option<Vec<u8>> = None;
    let mut pos: usize = 0;
    let ghost st0 = spec_crbit_scan_init();
    while pos < data.len()
        invariant
            pos <= data@.len(),
            st0 == spec_crbit_scan_init(),
            ({
                let st = CrbitScan {
                    bits: bits@,
                    width: match width {
                        Some(w) => Some(w as int),
                        None => None,
                    },
                    dev: match &dev {
                        Some(d) => Some(d@),
                        None => None,
                    },
                    bad: false,
                };
                spec_crbit_scan(data@, 0, st0) == spec_crbit_scan(data@, pos as int, st)
            }),
        decreases data@.len() - pos,
    {
        let ghost st_in = CrbitScan {
            bits: bits@,
            width: match width {
                Some(w) => Some(w as int),
                None => None,
            },
            dev: match &dev {
                Some(d) => Some(d@),
                None => None,
            },
            bad: false,
        };
        let e = find_byte(data, 10, pos);
        let lo = trim_lo(data, pos, e);
        let hi = trim_hi(data, lo, e);
        if lo >= hi {
            // empty line
        } else if hi - lo >= 10 && device_prefix_at(data, lo) {
            dev = Some(copy_range(data, lo + 10, hi));
        } else if hi - lo >= 2 && data[lo] == 47 && data[lo + 1] == 47 {
            // comment line
        } else {
            if !all_binary(data, lo, hi) {
                proof {
                    assert(spec_crbit_step(data@, pos as int, e as int, st_in).bad);
                    lemma_find_byte_range(data@, 10, pos as int);
                    if e < data@.len() {
                        lemma_scan_bad_persists(
                            data@,
                            e + 1,
                            spec_crbit_step(data@, pos as int, e as int, st_in),
                        );
                    }
                }
                return Err(CrbitFormatError::InvalidCharacter);
            }
            let mut k: usize = lo;
            while k < hi
                invariant
                    lo <= k <= hi <= data@.len(),
                    forall|j: int| lo <= j < hi ==> data@[j] == 48 || data@[j] == 49,
                    bits@ =~= st_in.bits + Seq::new(
                        (k - lo) as nat,
                        |j: int| data@[lo + j] == 49,
                    ),
                decreases hi - k,
            {
                if data[k] == 48 {
                    bits.push(false);
                } else {
                    bits.push(true);
                }
                proof {
                    assert(bits@ =~= st_in.bits + Seq::new(
                        (k + 1 - lo) as nat,
                        |j: int| data@[lo + j] == 49,
                    ));
                }
                k += 1;
            }
            if width.is_none() {
                width = Some(hi - lo);
            }
        }
        if e == data.len() {
            pos = e;
        } else {
            pos = e + 1;
        }
    }
    let ghost st = spec_crbit_scan(data@, 0, st0);
    proof {
        assert(st == CrbitScan {
            bits: bits@,
            width: match width {
                Some(w) => Some(w as int),
                None => None,
            },
            dev: match &dev {
                Some(d) => Some(d@),
                None => None,
            },
            bad: false,
        });
    }
    let w = match width {
        Some(w) => w,
        None => {
            return Err(CrbitFormatError::NoData);
        },
    };
    match dev {
        Some(d) => {
            let part = match parse_part_bytes(d.as_slice()) {
                Some(p) => p,
                None => {
                    return Err(CrbitFormatError::InvalidPartName);
                },
            };
            let (dw, dh) = part.device.fuse_array_dims();
            if dw == w && bits.len() == dw * dh {
                Ok(Coolrunner2 { part, bits })
            } else {
                Err(CrbitFormatError::InvalidBitCount)
            }
        },
        None => {
            let total = bits.len();
            let device = if w == 260 && total == 260 * 50 {
                Some(XC2Device::XC2C32A)
            } else if w == 274 && total == 274 * 98 {
                Some(XC2Device::XC2C64A)
            } else if w == 752 && total == 752 * 82 {
                Some(XC2Device::XC2C128)
            } else if w == 1364 && total == 1364 * 98 {
                Some(XC2Device::XC2C256)
            } else if w == 1868 && total == 1868 * 122 {
                Some(XC2Device::XC2C384)
            } else if w == 1980 && total == 1980 * 162 {
                Some(XC2Device::XC2C512)
            } else {
                None
            };
            match device {
                Some(device) => Ok(
                    Coolrunner2 { part: XC2Part { device, speed: None, package: None }, bits },
                ),
                None => Err(CrbitFormatError::InvalidBitCount),
            }
        },
    }
}

/// One row of the grid as `0`/`1` bytes.
pub open spec fn spec_crbit_row(g: Seq<bool>, w: int, y: int) -> Seq<u8> {
    Seq::new(w as nat, |x: int| if g[y * w + x] { 49u8 } else { 48u8 })
}

/// All rows from `y` down, each followed by a newline.
pub open spec fn spec_crbit_rows(g: Seq<bool>, w: int, h: int, y: int) -> Seq<u8>
    decreases h - y,
{
    if y >= h {
        Seq::empty()
    } else {
        spec_crbit_row(g, w, y) + seq![10u8] + spec_crbit_rows(g, w, h, y + 1)
    }
}

/// The emitted text: a comment header, the `// DEVICE` directive, a
/// blank line, the grid rows, and a final blank line.
pub open spec fn spec_write_crbit(part: XC2Part, g: Seq<bool>) -> Seq<u8> {
    seq![47u8, 47, 32, 99, 114, 98, 105, 116, 10, 10] + spec_device_prefix() + spec_part_name(part)
        + seq![10u8, 10] + spec_crbit_rows(
        g,
        part.device.spec_fuse_array_dims().0 as int,
        part.device.spec_fuse_array_dims().1 as int,
        0,
    ) + seq![10u8]
}

impl Coolrunner2 {
    /// Emit this device model as native grid text.
    pub fn write_crbit(&self) -> (r: Vec<u8>)
        requires
            self.wf(),
        ensures
            r@ == spec_write_crbit(self.part, self.grid()),
    {
        let (w, h) = self.part.device.fuse_array_dims();
        let mut out: Vec<u8> = Vec::new();
        out.push(47);
        out.push(47);
        out.push(32);
        out.push(99);
        out.push(114);
        out.push(98);
        out.push(105);
        out.push(116);
        out.push(10);
        out.push(10);
        out.push(47);
        out.push(47);
        out.push(32);
        out.push(68);
        out.push(69);
        out.push(86);
        out.push(73);
        out.push(67);
        out.push(69);
        out.push(32);
        let mut name = part_name_bytes(&self.part);
        out.append(&mut name);
        out.push(10);
        out.push(10);
        let ghost prefix = seq![47u8, 47, 32, 99, 114, 98, 105, 116, 10, 10]
            + spec_device_prefix() + spec_part_name(self.part) + seq![10u8, 10];
        proof {
            assert(out@ =~= prefix);
        }
        let mut y: usize = 0;
        while y < h
            invariant
                self.wf(),
                w == self.part.device.spec_fuse_array_dims().0,
                h == self.part.device.spec_fuse_array_dims().1,
                y <= h,
                out@ + spec_crbit_rows(self.grid(), w as int, h as int, y as int) =~= prefix
                    + spec_crbit_rows(self.grid(), w as int, h as int, 0),
            decreases h - y,
        {
            let mut x: usize = 0;
            while x < w
                invariant
                    self.wf(),
                    w == self.part.device.spec_fuse_array_dims().0,
                    h == self.part.device.spec_fuse_array_dims().1,
                    y < h,
                    x <= w,
                    out@ + spec_crbit_row(self.grid(), w as int, y as int).subrange(
                        x as int,
                        w as int,
                    ) + seq![10u8] + spec_crbit_rows(self.grid(), w as int, h as int, y + 1)
                        =~= prefix + spec_crbit_rows(self.grid(), w as int, h as int, 0),
                decreases w - x,
            {
                proof {
                    crate::bitstream::lemma_linear_index_in_range(
                        self.part.device,
                        crate::coordinate::Coordinate { x, y },
                    );
                }
                if self.bits[y * w + x] {
                    out.push(49);
                } else {
                    out.push(48);
                }
                proof {
                    assert(spec_crbit_row(self.grid(), w as int, y as int).subrange(
                        x as int,
                        w as int,
                    ) =~= seq![spec_crbit_row(self.grid(), w as int, y as int)[x as int]]
                        + spec_crbit_row(self.grid(), w as int, y as int).subrange(
                        x + 1,
                        w as int,
                    ));
                }
                x += 1;
            }
            out.push(10);
            proof {
                assert(spec_crbit_row(self.grid(), w as int, y as int).subrange(
                    w as int,
                    w as int,
                ) =~= Seq::<u8>::empty());
            }
            y += 1;
        }
        out.push(10);
        proof {
            assert(spec_crbit_rows(self.grid(), w as int, h as int, h as int)
                =~= Seq::<u8>::empty());
            assert(out@ =~= spec_write_crbit(self.part, self.grid()));
        }
        out
    }
}

/// The first `b` at or after `from` is exactly at `k` when nothing
/// before `k` matches and `k` matches or is the end.
pub(crate) proof fn lemma_find_byte_at(s: Seq<u8>, b: u8, from: int, k: int)
    requires
        0 <= from <= k <= s.len(),
        forall|j: int| from <= j < k ==> s[j] != b,
        k == s.len() || s[k] == b,
    ensures
        spec_find_byte(s, b, from) == k,
    decreases k - from,
{
    if from < k {
        lemma_find_byte_at(s, b, from + 1, k);
    }
}

/// Byte `i` of the row block that starts at text row `y0`: row bytes
/// and newlines alternate with period `w + 1`.
pub(crate) proof fn lemma_crbit_rows_index(g: Seq<bool>, w: int, h: int, y0: int, i: int)
    requires
        1 <= w,
        0 <= y0 <= h,
        0 <= i < (h - y0) * (w + 1),
    ensures
        ({
            let q = i / (w + 1);
            let r = i % (w + 1);
            spec_crbit_rows(g, w, h, y0)[i] == (if r < w {
                if g[(y0 + q) * w + r] {
                    49u8
                } else {
                    48u8
                }
            } else {
                10u8
            })
        }),
    decreases h - y0,
{
    lemma_crbit_rows_len(g, w, h, y0);
    lemma_crbit_rows_len(g, w, h, y0 + 1);
    if i < w + 1 {
        assert(i / (w + 1) == 0 && i % (w + 1) == i) by (nonlinear_arith)
            requires
                0 <= i < w + 1,
        {
        }
    } else {
        lemma_crbit_rows_index(g, w, h, y0 + 1, i - (w + 1));
        assert(i / (w + 1) == (i - (w + 1)) / (w + 1) + 1 && i % (w + 1) == (i - (w + 1)) % (w
            + 1)) by (nonlinear_arith)
            requires
                w + 1 >= 1,
                i >= w + 1,
        {
        }
        assert(spec_crbit_rows(g, w, h, y0)[i] == spec_crbit_rows(g, w, h, y0 + 1)[i - (w + 1)]);
    }
}

/// Length of the row block.
pub(crate) proof fn lemma_crbit_rows_len(g: Seq<bool>, w: int, h: int, y0: int)
    requires
        1 <= w,
        0 <= y0 <= h,
    ensures
        spec_crbit_rows(g, w, h, y0).len() == (h - y0) * (w + 1),
    decreases h - y0,
{
    if y0 < h {
        lemma_crbit_rows_len(g, w, h, y0 + 1);
        assert((h - y0) * (w + 1) == (h - (y0 + 1)) * (w + 1) + (w + 1)) by (nonlinear_arith) {
        }
    } else {
        assert((h - y0) * (w + 1) == 0) by (nonlinear_arith)
            requires
                h == y0,
        {
        }
    }
}

/// Scanning the row block: each text row contributes its grid row's
/// bits, the first row fixes the width, and nothing else changes.
#[verifier::rlimit(100)]
pub(crate) proof fn lemma_scan_rows(
    s: Seq<u8>,
    g: Seq<bool>,
    w: int,
    h: int,
    base: int,
    y: int,
    st: CrbitScan,
)
    requires
        1 <= w,
        1 <= h,
        0 <= y <= h,
        h * w <= g.len(),
        0 <= base,
        s.len() == base + (h - y) * (w + 1) + 1,
        s.subrange(base, base + (h - y) * (w + 1)) == spec_crbit_rows(g, w, h, y),
        s[s.len() - 1] == 10,
        !st.bad,
    ensures
        spec_crbit_scan(s, base, st) == (CrbitScan {
            bits: st.bits + g.subrange(y * w, h * w),
            width: if st.width is None && y < h {
                Some(w)
            } else {
                st.width
            },
            dev: st.dev,
            bad: false,
        }),
    decreases h - y,
{
    lemma_crbit_rows_len(g, w, h, y);
    assert(y * w <= h * w) by (nonlinear_arith)
        requires
            0 <= y <= h,
            1 <= w,
    {
    }
    if y == h {
        assert(s.len() == base + 1);
        assert(s[base] == 10);
        lemma_find_byte_at(s, 10, base, base);
        assert(spec_crbit_step(s, base, base, st) == st);
        assert(g.subrange(y * w, h * w) =~= Seq::<bool>::empty());
        assert(st.bits + g.subrange(y * w, h * w) =~= st.bits);
        assert(spec_crbit_scan(s, base, st) == spec_crbit_scan(s, base + 1, st));
        assert(spec_crbit_scan(s, base + 1, st) == st);
        assert(spec_crbit_scan(s, base, st) == st);
        assert(spec_crbit_scan(s, base, st) == CrbitScan {
            bits: st.bits + g.subrange(y * w, h * w),
            width: st.width,
            dev: st.dev,
            bad: false,
        });
    } else {
        assert((h - y) * (w + 1) >= w + 1 && (h - y) * (w + 1) == (h - y - 1) * (w + 1) + (w + 1))
            by (nonlinear_arith)
            requires
                y < h,
                1 <= w,
        {
        }
        assert((y + 1) * w <= h * w && (y + 1) * w == y * w + w) by (nonlinear_arith)
            requires
                0 <= y < h,
                1 <= w,
        {
        }
        assert forall|j: int| #![trigger s[j]] base <= j < base + w + 1 implies s[j] == (
        if j - base < w {
            if g[y * w + (j - base)] {
                49u8
            } else {
                48u8
            }
        } else {
            10u8
        }) by {
            let i = j - base;
            lemma_crbit_rows_index(g, w, h, y, i);
            assert(i / (w + 1) == 0 && i % (w + 1) == i) by (nonlinear_arith)
                requires
                    0 <= i < w + 1,
            {
            }
            assert(s[j] == s.subrange(base, base + (h - y) * (w + 1))[i]);
        }
        lemma_find_byte_at(s, 10, base, base + w);
        let e = base + w;
        let lo = spec_trim_lo(s, base, e);
        let hi = spec_trim_hi(s, lo, e);
        assert(lo == base);
        assert(hi == e);
        if w >= 10 {
            assert(s.subrange(lo, lo + 10)[0] == s[base]);
            assert(s.subrange(lo, lo + 10) != spec_device_prefix());
        }
        assert(s[base] != 47);
        let rowbits = Seq::new((hi - lo) as nat, |k: int| s[lo + k] == 49);
        assert forall|k: int| 0 <= k < w implies rowbits[k] == g.subrange(y * w, y * w + w)[k] by {
            assert(s[base + k] == (if g[y * w + k] {
                49u8
            } else {
                48u8
            }));
        }
        assert(rowbits =~= g.subrange(y * w, y * w + w));
        let st2 = spec_crbit_step(s, base, e, st);
        assert(st2 == CrbitScan {
            bits: st.bits + g.subrange(y * w, y * w + w),
            width: if st.width is None {
                Some(w)
            } else {
                st.width
            },
            dev: st.dev,
            bad: false,
        });
        let base2 = base + w + 1;
        assert forall|i: int|
            #![trigger spec_crbit_rows(g, w, h, y + 1)[i]]
            0 <= i < (h - y - 1) * (w + 1) implies s.subrange(
            base2,
            base2 + (h - y - 1) * (w + 1),
        )[i] == spec_crbit_rows(g, w, h, y + 1)[i] by {
            lemma_crbit_rows_len(g, w, h, y + 1);
            assert(s[base2 + i] == spec_crbit_rows(g, w, h, y)[w + 1 + i]);
            assert(spec_crbit_rows(g, w, h, y)[w + 1 + i] == spec_crbit_rows(g, w, h, y + 1)[i]);
        }
        lemma_crbit_rows_len(g, w, h, y + 1);
        assert(s.subrange(base2, base2 + (h - y - 1) * (w + 1)) =~= spec_crbit_rows(
            g,
            w,
            h,
            y + 1,
        ));
        lemma_scan_rows(s, g, w, h, base2, y + 1, st2);
        assert(st2.bits + g.subrange((y + 1) * w, h * w) =~= st.bits + g.subrange(y * w, h * w))
            by {
            assert((y + 1) * w == y * w + w) by (nonlinear_arith) {
            }
        }
        assert((y + 1) * w == y * w + w) by (nonlinear_arith) {
        }
        assert(spec_crbit_scan(s, base, st) == spec_crbit_scan(s, e + 1, st2));
    }
}

/// Round trip of the native grid text: emitting any grid for a valid
/// part and parsing the text back yields exactly that part and grid.
#[verifier::rlimit(100)]
pub proof fn lemma_crbit_round_trip(part: XC2Part, g: Seq<bool>)
    requires
        g.len() == part.device.spec_fuse_array_dims().0 * part.device.spec_fuse_array_dims().1,
        crate::partdb::spec_valid_speed(part.device, part.speed),
        crate::partdb::spec_valid_package(part.device, part.package),
    ensures
        spec_read_crbit(spec_write_crbit(part, g)) == Ok::<(XC2Part, Seq<bool>), CrbitFormatError>(
            (part, g),
        ),
{
    let w = part.device.spec_fuse_array_dims().0 as int;
    let h = part.device.spec_fuse_array_dims().1 as int;
    let name = spec_part_name(part);
    let nl = name.len() as int;
    let s = spec_write_crbit(part, g);
    let rows = spec_crbit_rows(g, w, h, 0);
    let base = 22 + nl;
    crate::partname::lemma_part_name_printable(part);
    lemma_crbit_rows_len(g, w, h, 0);
    assert(h * w == w * h) by (nonlinear_arith) {
    }
    assert(s.len() == base + h * (w + 1) + 1);
    // byte layout of the emitted text
    assert(s[0] == 47 && s[1] == 47 && s[2] == 32 && s[3] == 99 && s[4] == 114 && s[5] == 98
        && s[6] == 105 && s[7] == 116 && s[8] == 10 && s[9] == 10);
    assert forall|j: int| #![trigger s[j]] 10 <= j < 20 implies s[j] == spec_device_prefix()[j
        - 10] && s[j] != 10 by {
    }
    assert forall|j: int| #![trigger s[j]] 20 <= j < 20 + nl implies s[j] == name[j - 20] && s[j]
        != 10 && !spec_is_ws(s[j]) by {
    }
    assert(s[20 + nl] == 10 && s[21 + nl] == 10);
    assert forall|i: int| 0 <= i < h * (w + 1) implies s.subrange(base, base + h * (w + 1))[i]
        == rows[i] by {
        assert(s[base + i] == rows[i]);
    }
    assert(s.subrange(base, base + h * (w + 1)) =~= rows);
    assert(s[s.len() - 1] == 10);
    let st0 = spec_crbit_scan_init();
    // header comment line
    lemma_find_byte_at(s, 10, 0, 8);
    assert(spec_trim_lo(s, 0, 8) == 0);
    assert(spec_trim_hi(s, 0, 8) == 8);
    assert(spec_crbit_step(s, 0, 8, st0) == st0);
    assert(spec_crbit_scan(s, 0, st0) == spec_crbit_scan(s, 9, st0));
    // blank line
    lemma_find_byte_at(s, 10, 9, 9);
    assert(spec_crbit_step(s, 9, 9, st0) == st0);
    assert(spec_crbit_scan(s, 9, st0) == spec_crbit_scan(s, 10, st0));
    // the device directive line
    lemma_find_byte_at(s, 10, 10, 20 + nl);
    assert(spec_trim_lo(s, 10, 20 + nl) == 10);
    assert(spec_trim_hi(s, 10, 20 + nl) == 20 + nl);
    assert(s.subrange(10, 20) =~= spec_device_prefix());
    assert(s.subrange(20, 20 + nl) =~= name);
    let st1 = CrbitScan { dev: Some(name), ..st0 };
    assert(spec_crbit_step(s, 10, 20 + nl, st0) == st1);
    assert(spec_crbit_scan(s, 10, st0) == spec_crbit_scan(s, 21 + nl, st1));
    // blank line after the directive
    lemma_find_byte_at(s, 10, 21 + nl, 21 + nl);
    assert(spec_crbit_step(s, 21 + nl, 21 + nl, st1) == st1);
    assert(spec_crbit_scan(s, 21 + nl, st1) == spec_crbit_scan(s, base, st1));
    // the grid rows
    lemma_scan_rows(s, g, w, h, base, 0, st1);
    let stf = spec_crbit_scan(s, 0, st0);
    assert(stf.bits =~= g);
    assert(stf.width == Some(w));
    assert(stf.dev == Some(name));
    assert(!stf.bad);
    crate::partname::lemma_part_name_round_trip(part);
    assert(spec_read_crbit(s) == Ok::<(XC2Part, Seq<bool>), CrbitFormatError>((part, stf.bits)));
}

} // verus!
