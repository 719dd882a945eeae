use vstd::prelude::*;
use vstd::std_specs::iter::IteratorSpec;

verus! {

/// The encoder implementation handed to the external encoding tool.
#[derive(Debug, Clone, Copy, PartialEq, Eq, Structural)]
pub enum Encoder {
    Nvidia,
    Amd,
    Intel,
    Software,
}

/// A GPU maker recognised in the host's video controller listing.
#[derive(Debug, Clone, Copy, PartialEq, Eq, Structural)]
pub enum GpuVendor {
    Nvidia,
    Amd,
    Intel,
}

/// What `str::to_lowercase` makes of a string.
pub uninterp spec fn lower_of(s: Seq<char>) -> Seq<char>;

/// `needle` occurs in `hay` as a contiguous run.
pub open spec fn occurs(hay: Seq<char>, needle: Seq<char>) -> bool {
    exists|i: int| 0 <= i <= hay.len() - needle.len() && #[trigger] hay.subrange(i, i + needle.len()) == needle
}

/// The vendor named in a lowercased controller listing; NVIDIA wins over AMD
/// (also written "radeon"), which wins over Intel.
pub open spec fn vendor_in(listing: Seq<char>) -> Option<GpuVendor> {
    if occurs(listing, "nvidia"@) {
        Some(GpuVendor::Nvidia)
    } else if occurs(listing, "amd"@) || occurs(listing, "radeon"@) {
        Some(GpuVendor::Amd)
    } else if occurs(listing, "intel"@) {
        Some(GpuVendor::Intel)
    } else {
        None
    }
}

/// The hardware H.264 encoder name that belongs to a vendor.
pub open spec fn hardware_encoder_name(v: GpuVendor) -> Seq<char> {
    match v {
        GpuVendor::Nvidia => "h264_nvenc"@,
        GpuVendor::Amd => "h264_amf"@,
        GpuVendor::Intel => "h264_qsv"@,
    }
}

/// The backend for a detected vendor and the tool's encoder listing: that
/// vendor's hardware backend when its encoder is listed, else software.
pub open spec fn backend_for(vendor: Option<GpuVendor>, capabilities: Seq<char>) -> Encoder {
    match vendor {
        Some(v) => if occurs(capabilities, hardware_encoder_name(v)) {
            match v {
                GpuVendor::Nvidia => Encoder::Nvidia,
                GpuVendor::Amd => Encoder::Amd,
                GpuVendor::Intel => Encoder::Intel,
            }
        } else {
            Encoder::Software
        },
        None => Encoder::Software,
    }
}

/// The codec name that the encoder tool knows a backend by.
pub open spec fn codec_name(e: Encoder) -> Seq<char> {
    match e {
        Encoder::Nvidia => "h264_nvenc"@,
        Encoder::Amd => "h264_amf"@,
        Encoder::Intel => "h264_qsv"@,
        Encoder::Software => "libx264"@,
    }
}

impl Encoder {
    /// The codec name that the encoder tool knows this backend by.
    pub fn codec(&self) -> (r: &'static str)
        ensures
            r@ == codec_name(*self),
    {
        match self {
            Encoder::Nvidia => "h264_nvenc",
            Encoder::Amd => "h264_amf",
            Encoder::Intel => "h264_qsv",
            Encoder::Software => "libx264",
        }
    }
}

/// Relies on `str::to_lowercase`: the result depends on the characters alone.
#[verifier::external_body]
fn lowercase(s: &str) -> (r: String)
    ensures
        r@ == lower_of(s@),
{
    s.to_lowercase()
}

/// The characters of `s`, in order.
pub fn chars_of(s: &str) -> (r: Vec<char>)
    ensures
        r@ == s@,
{
    broadcast use vstd::string::axiom_spec_iter;
    let mut out: Vec<char> = Vec::new();
    for c in it: s.chars()
        invariant
            it.seq() == s@,
            out@ == it.seq().take(it.index() as int),
    {
        out.push(c);
    }
    out
}

/// Whether `needle` occurs in `hay`.
pub fn occurs_in(hay: &Vec<char>, needle: &Vec<char>) -> (r: bool)
    ensures
        r == occurs(hay@, needle@),
{
    let n: usize = needle.len();
    if n > hay.len() {
        proof {
            assert forall|i: int| 0 <= i <= hay@.len() - needle@.len() implies
                #[trigger] hay@.subrange(i, i + needle@.len()) != needle@ by {}
        }
        return false;
    }
    if n == 0 {
        assert(hay@.subrange(0, 0 + needle@.len() as int) =~= needle@);
        return true;
    }
    let len: usize = hay.len();
    let last: usize = len - n;
    let mut i: usize = 0;
    while i <= last
        invariant
            n == needle@.len(),
            n > 0,
            len == hay@.len(),
            last == hay@.len() - n,
            i <= last + 1,
            forall|p: int| 0 <= p < i ==> #[trigger] hay@.subrange(p, p + n) != needle@,
        decreases last + 1 - i,
    {
        let mut j: usize = 0;
        let mut same: bool = true;
        while j < n
            invariant
                n == needle@.len(),
                i <= last,
                len == hay@.len(),
                last == hay@.len() - n,
                j <= n,
                same <==> forall|q: int| 0 <= q < j ==> hay@[i + q] == needle@[q],
            decreases n - j,
        {
            if hay[i + j] != needle[j] {
                same = false;
            }
            j = j + 1;
        }
        if same {
            assert(hay@.subrange(i as int, i + n) =~= needle@);
            return true;
        }
        proof {
            let q = choose|q: int| 0 <= q < n && hay@[i + q] != needle@[q];
            assert(hay@.subrange(i as int, i + n)[q] != needle@[q]);
        }
        i = i + 1;
    }
    false
}

/// The vendor named in a video controller listing that is already lowercase.
pub fn vendor_from_lowered(listing: &str) -> (r: Option<GpuVendor>)
    ensures
        r == vendor_in(listing@),
{
    let hay = chars_of(listing);
    if occurs_in(&hay, &chars_of("nvidia")) {
        Some(GpuVendor::Nvidia)
    } else if occurs_in(&hay, &chars_of("amd")) || occurs_in(&hay, &chars_of("radeon")) {
        Some(GpuVendor::Amd)
    } else if occurs_in(&hay, &chars_of("intel")) {
        Some(GpuVendor::Intel)
    } else {
        None
    }
}

/// The vendor named in a video controller listing, in any letter case.
pub fn detect_gpu_vendor(listing: &str) -> (r: Option<GpuVendor>)
    ensures
        r == vendor_in(lower_of(listing@)),
{
    let lowered = lowercase(listing);
    vendor_from_lowered(lowered.as_str())
}

/// Chooses the backend from the detected vendor and the encoder tool's listing
/// of the encoders it supports. A vendor's hardware backend comes out only when
/// that vendor was detected and its encoder is listed; anything else, an empty
/// listing included, gives the software backend.
pub fn select_encoder(vendor: Option<GpuVendor>, capabilities: &str) -> (r: Encoder)
    ensures
        r == backend_for(vendor, capabilities@),
        r == Encoder::Nvidia <==> vendor == Some(GpuVendor::Nvidia) && occurs(capabilities@, "h264_nvenc"@),
        r == Encoder::Amd <==> vendor == Some(GpuVendor::Amd) && occurs(capabilities@, "h264_amf"@),
        r == Encoder::Intel <==> vendor == Some(GpuVendor::Intel) && occurs(capabilities@, "h264_qsv"@),
        vendor is None ==> r == Encoder::Software,
        capabilities@.len() == 0 ==> r == Encoder::Software,
{
    let listed = chars_of(capabilities);
    proof {
        reveal_strlit("h264_nvenc");
        reveal_strlit("h264_amf");
        reveal_strlit("h264_qsv");
        if capabilities@.len() == 0 {
            assert(!occurs(capabilities@, "h264_nvenc"@));
            assert(!occurs(capabilities@, "h264_amf"@));
            assert(!occurs(capabilities@, "h264_qsv"@));
        }
    }
    match vendor {
        Some(GpuVendor::Nvidia) => if occurs_in(&listed, &chars_of("h264_nvenc")) {
            Encoder::Nvidia
        } else {
            Encoder::Software
        },
        Some(GpuVendor::Amd) => if occurs_in(&listed, &chars_of("h264_amf")) {
            Encoder::Amd
        } else {
            Encoder::Software
        },
        Some(GpuVendor::Intel) => if occurs_in(&listed, &chars_of("h264_qsv")) {
            Encoder::Intel
        } else {
            Encoder::Software
        },
        None => Encoder::Software,
    }
}

/// The vendor that a controller listing names; nothing when the query failed.
pub open spec fn queried_vendor(listing: Option<&str>) -> Option<GpuVendor> {
    match listing {
        Some(g) => vendor_in(lower_of(g@)),
        None => None,
    }
}

/// What a query printed; nothing when it failed.
pub open spec fn queried_text(listing: Option<&str>) -> Seq<char> {
    match listing {
        Some(e) => e@,
        None => Seq::empty(),
    }
}

/// Picks the encoder backend from what the two host queries printed: the
/// video controller listing and the encoder tool's encoder listing. A query
/// that could not be run is `None` and counts as finding nothing, so the
/// result degrades to the software backend.
pub fn detect_encoder(gpu_listing: Option<&str>, encoder_listing: Option<&str>) -> (r: Encoder)
    ensures
        r == backend_for(queried_vendor(gpu_listing), queried_text(encoder_listing)),
        gpu_listing is None ==> r == Encoder::Software,
        encoder_listing is None ==> r == Encoder::Software,
{
    let vendor = match gpu_listing {
        Some(g) => detect_gpu_vendor(g),
        None => None,
    };
    proof {
        reveal_strlit("");
    }
    let text: &str = match encoder_listing {
        Some(e) => e,
        None => "",
    };
    assert(text@ == queried_text(encoder_listing));
    select_encoder(vendor, text)
}

} // verus!
