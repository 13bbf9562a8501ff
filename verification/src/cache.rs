use vstd::prelude::*;
use vstd::string::StringExecFns;

use crate::content::ImageData;

verus! {

/// Offset basis of the 64-bit FNV-1a hash.
pub const FNV_OFFSET: u64 = 0xcbf29ce484222325;

/// Prime of the 64-bit FNV-1a hash.
pub const FNV_PRIME: u64 = 0x100000001b3;

/// One FNV-1a step: fold a byte into the running hash.
pub open spec fn fnv1a_step(h: u64, b: u8) -> u64 {
    vstd::wrapping::u64_specs::wrapping_mul(h ^ (b as u64), FNV_PRIME)
}

/// The 64-bit FNV-1a hash of a byte sequence. Deterministic: a function of
/// the bytes alone, so identical pixel content always maps to the same
/// cache file.
pub open spec fn fnv1a_of(bytes: Seq<u8>) -> u64
    decreases bytes.len(),
{
    if bytes.len() == 0 {
        FNV_OFFSET
    } else {
        fnv1a_step(fnv1a_of(bytes.drop_last()), bytes.last())
    }
}

/// Compute the 64-bit FNV-1a hash of a byte buffer.
pub fn fnv1a64(bytes: &Vec<u8>) -> (h: u64)
    ensures
        h == fnv1a_of(bytes@),
{
    let mut h: u64 = FNV_OFFSET;
    let mut i: usize = 0;
    while i < bytes.len()
        invariant
            i <= bytes.len(),
            h == fnv1a_of(bytes@.take(i as int)),
        decreases bytes.len() - i,
    {
        let ghost prefix: Seq<u8> = bytes@.take(i as int);
        h = (h ^ (bytes[i] as u64)).wrapping_mul(FNV_PRIME);
        proof {
            assert(bytes@.take(i + 1 as int).drop_last() =~= prefix);
            assert(bytes@.take(i + 1 as int).last() == bytes@[i as int]);
        }
        i = i + 1;
    }
    proof {
        assert(bytes@.take(bytes@.len() as int) =~= bytes@);
    }
    h
}

/// The decimal digit for a value below ten.
pub open spec fn digit_char(d: nat) -> char {
    if d == 0 {
        '0'
    } else if d == 1 {
        '1'
    } else if d == 2 {
        '2'
    } else if d == 3 {
        '3'
    } else if d == 4 {
        '4'
    } else if d == 5 {
        '5'
    } else if d == 6 {
        '6'
    } else if d == 7 {
        '7'
    } else if d == 8 {
        '8'
    } else {
        '9'
    }
}

/// The decimal rendering of a number, most significant digit first, without
/// leading zeros (a single zero renders as "0").
pub open spec fn dec_view(n: nat) -> Seq<char>
    decreases n,
{
    if n < 10 {
        seq![digit_char(n)]
    } else {
        dec_view(n / 10).push(digit_char(n % 10))
    }
}

/// The one-character string for a decimal digit.
fn digit_str(d: u64) -> (r: &'static str)
    requires
        d < 10,
    ensures
        r@.len() == 1,
        r@[0] == digit_char(d as nat),
{
    let r: &'static str = match d {
        0 => "0",
        1 => "1",
        2 => "2",
        3 => "3",
        4 => "4",
        5 => "5",
        6 => "6",
        7 => "7",
        8 => "8",
        _ => "9",
    };
    proof {
        reveal_strlit("0");
        reveal_strlit("1");
        reveal_strlit("2");
        reveal_strlit("3");
        reveal_strlit("4");
        reveal_strlit("5");
        reveal_strlit("6");
        reveal_strlit("7");
        reveal_strlit("8");
        reveal_strlit("9");
    }
    r
}

/// Append the decimal rendering of `n` to `s`.
fn push_dec(s: &mut String, n: u64)
    ensures
        final(s)@ == old(s)@ + dec_view(n as nat),
    decreases n,
{
    if n < 10 {
        s.append(digit_str(n));
        proof {
            assert(final(s)@ =~= old(s)@ + dec_view(n as nat));
        }
    } else {
        push_dec(s, n / 10);
        s.append(digit_str(n % 10));
        proof {
            assert(final(s)@ =~= old(s)@ + dec_view(n as nat));
        }
    }
}

/// Render a number in decimal.
pub fn u64_to_dec(n: u64) -> (r: String)
    ensures
        r@ == dec_view(n as nat),
{
    let mut s = String::new();
    push_dec(&mut s, n);
    proof {
        assert(s@ =~= dec_view(n as nat));
    }
    s
}

/// The cache file name of an image with the given content hash.
pub open spec fn image_file_name(hash: u64) -> Seq<char> {
    dec_view(hash as nat) + ".png"@
}

/// The cache file path of an image with the given content hash, under the
/// given directory.
pub open spec fn image_path_view(dir: Seq<char>, hash: u64) -> Seq<char> {
    dir + "/"@ + image_file_name(hash)
}

/// The file path under which a decoded clipboard image is materialized:
/// `<dir>/<hash of the pixel bytes>.png`. A function of the pixel bytes and
/// the directory alone, so re-reads of identical content resolve to the same
/// file.
pub fn image_cache_path(dir: &str, image: &ImageData) -> (r: String)
    ensures
        r@ == image_path_view(dir@, fnv1a_of(image.bytes@)),
{
    let h = fnv1a64(&image.bytes);
    let mut s = String::from_str(dir);
    s.append("/");
    push_dec(&mut s, h);
    s.append(".png");
    proof {
        assert(s@ =~= image_path_view(dir@, fnv1a_of(image.bytes@)));
    }
    s
}

/// The cache contents after an image with the given hash is materialized:
/// append-only, and idempotent for a hash already present.
pub open spec fn cache_insert(c: Seq<u64>, h: u64) -> Seq<u64> {
    if c.contains(h) {
        c
    } else {
        c.push(h)
    }
}

/// Whether materializing the hash needs a disk write: only when the file is
/// not already on disk and the cache has not materialized the hash before.
pub open spec fn cache_needs_write(c: Seq<u64>, h: u64, on_disk: bool) -> bool {
    !on_disk && !c.contains(h)
}

/// Content-addressed record of the image files this process has
/// materialized. The on-disk cache is append-only and keyed by content hash,
/// so a hash recorded here never needs a second disk write.
pub struct ImageCache {
    present: Vec<u64>,
}

impl View for ImageCache {
    type V = Seq<u64>;

    closed spec fn view(&self) -> Seq<u64> {
        self.present@
    }
}

impl ImageCache {
    /// A fresh cache record: nothing materialized yet.
    pub fn new() -> (r: ImageCache)
        ensures
            r@ == Seq::<u64>::empty(),
    {
        ImageCache { present: Vec::new() }
    }

    /// Whether the given content hash has been materialized before.
    pub fn contains_hash(&self, h: u64) -> (r: bool)
        ensures
            r == self@.contains(h),
    {
        let mut i: usize = 0;
        while i < self.present.len()
            invariant
                i <= self.present.len(),
                forall|j: int| 0 <= j < i ==> self.present@[j] != h,
            decreases self.present.len() - i,
        {
            if self.present[i] == h {
                return true;
            }
            i = i + 1;
        }
        false
    }

    /// Record that the image with hash `h` is materialized, and decide
    /// whether that takes a disk write: it does only when the file is not
    /// already on disk and the hash was never materialized before.
    pub fn plan_store(&mut self, h: u64, on_disk: bool) -> (needs_write: bool)
        ensures
            final(self)@ == cache_insert(old(self)@, h),
            needs_write == cache_needs_write(old(self)@, h, on_disk),
            final(self)@.contains(h),
    {
        let known = self.contains_hash(h);
        if !known {
            self.present.push(h);
            proof {
                assert(self.present@[self.present@.len() - 1] == h);
            }
        }
        !on_disk && !known
    }
}

/// Reading an image twice from unchanged clipboard content is idempotent on
/// disk: the second materialization of the same content hash never writes,
/// so the two reads perform at most one disk write between them — none at
/// all when the file already existed. Both reads resolve to the same file
/// path, since the path is a function of the pixel bytes alone
/// ([`image_path_view`] of [`fnv1a_of`]).
pub proof fn lemma_image_read_idempotent(c: Seq<u64>, h: u64, first_on_disk: bool, second_on_disk: bool)
    ensures
        cache_insert(c, h).contains(h),
        !cache_needs_write(cache_insert(c, h), h, second_on_disk),
        cache_needs_write(c, h, first_on_disk) ==> !first_on_disk && !c.contains(h),
{
    if !c.contains(h) {
        assert(c.push(h)[c.len() as int] == h);
    }
}

} // verus!
