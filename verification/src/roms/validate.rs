//! The cartridge validation rules: the logo match, the RAM-consistency
//! rule, and the two checksum recomputations.
//!
//! The logo, RAM-consistency and header-checksum rules together decide
//! whether a cartridge passes.  The global checksum is advisory only: the
//! byte range it is meant to cover is ambiguous and the stored value is
//! wrong on a meaningful fraction of real images, so it is exposed as a
//! separate check and is not part of `validate_cart`.

use vstd::prelude::*;

use crate::errors::JayBoyError;
use crate::roms::cart::spec_logo_bytes;
use crate::roms::cart::spec_ram_size;
use crate::roms::cart::Cartridge;
use crate::roms::cart_type::spec_cartridge_type;

verus! {

/// The fixed 48 logo bytes a cartridge must carry at `0x0104..=0x0133`.
pub open spec fn spec_nintendo_logo() -> Seq<u8> {
    seq![
        0xCEu8, 0xED, 0x66, 0x66, 0xCC, 0x0D, 0x00, 0x0B, 0x03, 0x73, 0x00, 0x83, 0x00, 0x0C,
        0x00, 0x0D, 0x00, 0x08, 0x11, 0x1F, 0x88, 0x89, 0x00, 0x0E, 0xDC, 0xCC, 0x6E, 0xE6,
        0xDD, 0xDD, 0xD9, 0x99, 0xBB, 0xBB, 0x67, 0x63, 0x6E, 0x0E, 0xEC, 0xCC, 0xDD, 0xDC,
        0x99, 0x9F, 0xBB, 0xB9, 0x33, 0x3E,
    ]
}

/// The fixed logo bytes as a vector.
pub fn nintendo_logo() -> (r: Vec<u8>)
    ensures
        r@ == spec_nintendo_logo(),
{
    let r = vec![
        0xCEu8, 0xED, 0x66, 0x66, 0xCC, 0x0D, 0x00, 0x0B, 0x03, 0x73, 0x00, 0x83, 0x00, 0x0C,
        0x00, 0x0D, 0x00, 0x08, 0x11, 0x1F, 0x88, 0x89, 0x00, 0x0E, 0xDC, 0xCC, 0x6E, 0xE6,
        0xDD, 0xDD, 0xD9, 0x99, 0xBB, 0xBB, 0x67, 0x63, 0x6E, 0x0E, 0xEC, 0xCC, 0xDD, 0xDC,
        0x99, 0x9F, 0xBB, 0xB9, 0x33, 0x3E,
    ];
    proof {
        assert(r@ =~= spec_nintendo_logo());
    }
    r
}

/// One step of the header checksum: `checksum - byte - 1`, wrapping in a
/// byte.
pub open spec fn checksum_step(acc: u8, byte: u8) -> u8 {
    ((acc - byte - 1) % 256) as u8
}

/// The header checksum of a byte sequence: the steps folded left to right,
/// starting from zero.
pub open spec fn spec_header_checksum(s: Seq<u8>) -> u8
    decreases s.len(),
{
    if s.len() == 0 {
        0
    } else {
        checksum_step(spec_header_checksum(s.drop_last()), s.last())
    }
}

/// The region the header checksum covers: `0x0134..=0x014C`.
pub open spec fn spec_checksum_region(b: Seq<u8>) -> Seq<u8> {
    b.subrange(0x134, 0x14D)
}

/// One step of the global checksum: a 16-bit wrapping add of a byte.
pub open spec fn global_step(acc: u16, byte: u8) -> u16 {
    ((acc + byte) % 0x10000) as u16
}

/// The global checksum over the first `n` bytes of the image, skipping the
/// two bytes that store it.
pub open spec fn spec_global_sum(s: Seq<u8>, n: int) -> u16
    decreases n,
{
    if n <= 0 {
        0
    } else if n - 1 == 0x14E || n - 1 == 0x14F {
        spec_global_sum(s, n - 1)
    } else {
        global_step(spec_global_sum(s, n - 1), s[n - 1])
    }
}

/// The global checksum of a whole image.
pub open spec fn spec_global_checksum(b: Seq<u8>) -> u16 {
    spec_global_sum(b, b.len() as int)
}

/// Recomputes the header checksum over `0x0134..=0x014C`, as the boot ROM
/// does: `checksum = checksum - byte - 1` with 8-bit wraparound, from zero.
pub fn generate_header_checksum(cart: &Cartridge) -> (r: u8)
    requires
        cart.wf(),
    ensures
        r == spec_header_checksum(spec_checksum_region(cart.spec_bytes())),
{
    let ghost region = spec_checksum_region(cart.spec_bytes());
    let bytes = cart.get_bytes();
    let mut checksum: u8 = 0;
    let mut address: usize = 0x0134;
    while address <= 0x014C
        invariant
            cart.wf(),
            bytes@ == cart.spec_bytes(),
            region == spec_checksum_region(cart.spec_bytes()),
            0x0134 <= address <= 0x014D,
            checksum == spec_header_checksum(region.subrange(0, address - 0x134)),
        decreases 0x014D - address,
    {
        let byte = *vstd::slice::slice_index_get(bytes, address);
        let ghost prev = checksum;
        checksum = u8::wrapping_sub(checksum, byte);
        checksum = u8::wrapping_sub(checksum, 1);
        proof {
            let k = address - 0x134;
            assert(region.subrange(0, k + 1).drop_last() =~= region.subrange(0, k));
            assert(region.subrange(0, k + 1).last() == byte);
            assert(checksum == checksum_step(prev, byte));
        }
        address = address + 1;
    }
    proof {
        assert(region.subrange(0, 0x19) =~= region);
    }
    checksum
}

/// Recomputes the global checksum: the 16-bit wraparound sum of every byte
/// of the image except the two that store the checksum itself.  Advisory:
/// see the module note.
pub fn generate_global_checksum(cart: &Cartridge) -> (r: u16)
    requires
        cart.wf(),
    ensures
        r == spec_global_checksum(cart.spec_bytes()),
{
    let bytes = cart.get_bytes();
    let mut checksum: u16 = 0;
    let mut i: usize = 0;
    while i < bytes.len()
        invariant
            bytes@ == cart.spec_bytes(),
            0 <= i <= bytes@.len(),
            checksum == spec_global_sum(bytes@, i as int),
        decreases bytes@.len() - i,
    {
        if !(i == 0x014E || i == 0x014F) {
            let byte = *vstd::slice::slice_index_get(bytes, i);
            checksum = u16::wrapping_add(checksum, byte as u16);
        }
        i = i + 1;
    }
    checksum
}

/// Checks that the logo region equals the fixed reference bytes exactly.
pub fn validate_nintendo_logo(cart: &Cartridge) -> (r: Result<(), JayBoyError>)
    requires
        cart.wf(),
    ensures
        spec_logo_bytes(cart.spec_bytes()) == spec_nintendo_logo() ==> r == Ok::<(), JayBoyError>(
            (),
        ),
        spec_logo_bytes(cart.spec_bytes()) != spec_nintendo_logo() ==> r == Err::<(), JayBoyError>(
            JayBoyError::InvalidLogo,
        ),
{
    let cart_bytes = cart.logo_bytes();
    let logo_bytes = nintendo_logo();
    let mut i: usize = 0;
    while i < 48
        invariant
            cart_bytes@ == spec_logo_bytes(cart.spec_bytes()),
            logo_bytes@ == spec_nintendo_logo(),
            cart_bytes@.len() == 48,
            0 <= i <= 48,
            forall|j: int| 0 <= j < i ==> cart_bytes@[j] == logo_bytes@[j],
        decreases 48 - i,
    {
        if *vstd::slice::slice_index_get(cart_bytes, i) != logo_bytes[i] {
            return Err(JayBoyError::InvalidLogo);
        }
        i = i + 1;
    }
    proof {
        assert(cart_bytes@ =~= logo_bytes@);
    }
    Ok(())
}

/// Checks that the cartridge type's RAM flag and the decoded RAM size
/// agree: a RAM flag demands a nonzero size, and a nonzero size demands
/// the flag.  An unknown cartridge-type byte fails with its own error.
pub fn validate_ram_size_vs_cartridge_type(cart: &Cartridge) -> (r: Result<(), JayBoyError>)
    requires
        cart.wf(),
    ensures
        ({
            let b = cart.spec_bytes();
            match spec_cartridge_type(b[0x147]) {
                Option::None => r == Err::<(), JayBoyError>(
                    JayBoyError::UnknownCartridgeType(b[0x147]),
                ),
                Option::Some(t) => {
                    if t.ram == (spec_ram_size(b[0x149]) > 0) {
                        r == Ok::<(), JayBoyError>(())
                    } else {
                        r == Err::<(), JayBoyError>(JayBoyError::RamSizeMismatch)
                    }
                },
            }
        }),
{
    let cart_type = match cart.cartridge_type() {
        Ok(t) => t,
        Err(e) => {
            return Err(e);
        },
    };
    let has_ram = cart_type.ram;
    let ram_size = cart.ram_size();
    if has_ram && ram_size == 0 {
        Err(JayBoyError::RamSizeMismatch)
    } else if !has_ram && ram_size != 0 {
        Err(JayBoyError::RamSizeMismatch)
    } else {
        Ok(())
    }
}

/// Runs the three load-bearing checks in order — logo, RAM consistency,
/// header checksum — and reports the first failure.  The advisory global
/// checksum is not part of this gate.
pub fn validate_cart(cart: &Cartridge) -> (r: Result<(), JayBoyError>)
    requires
        cart.wf(),
    ensures
        ({
            let b = cart.spec_bytes();
            if spec_logo_bytes(b) != spec_nintendo_logo() {
                r == Err::<(), JayBoyError>(JayBoyError::InvalidLogo)
            } else if spec_cartridge_type(b[0x147]) is None {
                r == Err::<(), JayBoyError>(JayBoyError::UnknownCartridgeType(b[0x147]))
            } else if spec_cartridge_type(b[0x147]).unwrap().ram != (spec_ram_size(b[0x149]) > 0) {
                r == Err::<(), JayBoyError>(JayBoyError::RamSizeMismatch)
            } else if spec_header_checksum(spec_checksum_region(b)) != b[0x14D] {
                r == Err::<(), JayBoyError>(JayBoyError::HeaderChecksumMismatch)
            } else {
                r == Ok::<(), JayBoyError>(())
            }
        }),
{
    match validate_nintendo_logo(cart) {
        Ok(()) => (),
        Err(e) => {
            return Err(e);
        },
    }
    match validate_ram_size_vs_cartridge_type(cart) {
        Ok(()) => (),
        Err(e) => {
            return Err(e);
        },
    }
    let checksum = generate_header_checksum(cart);
    if checksum != cart.header_checksum() {
        return Err(JayBoyError::HeaderChecksumMismatch);
    }
    Ok(())
}

/// The advisory global-checksum check: recomputation against the stored
/// big-endian word.  Kept apart from `validate_cart` on purpose.
pub fn validate_global_checksum(cart: &Cartridge) -> (r: Result<(), JayBoyError>)
    requires
        cart.wf(),
    ensures
        ({
            let b = cart.spec_bytes();
            let stored = b[0x14E] * 256 + b[0x14F];
            if spec_global_checksum(b) == stored {
                r == Ok::<(), JayBoyError>(())
            } else {
                r == Err::<(), JayBoyError>(JayBoyError::GlobalChecksumMismatch)
            }
        }),
{
    let checksum = generate_global_checksum(cart);
    if checksum != cart.global_checksum() {
        return Err(JayBoyError::GlobalChecksumMismatch);
    }
    Ok(())
}

/// The byte values of `s` summed without wrapping.
pub open spec fn spec_byte_sum(s: Seq<u8>) -> int
    decreases s.len(),
{
    if s.len() == 0 {
        0
    } else {
        spec_byte_sum(s.drop_last()) + s.last()
    }
}

/// The folded header checksum in closed form: the negated sum of the bytes
/// and their count, reduced modulo 256.
proof fn lemma_header_checksum_closed_form(s: Seq<u8>)
    ensures
        spec_header_checksum(s) == (0 - spec_byte_sum(s) - s.len()) % 256,
    decreases s.len(),
{
    if s.len() == 0 {
    } else {
        let prefix = s.drop_last();
        lemma_header_checksum_closed_form(prefix);
        let acc = spec_header_checksum(prefix) as int;
        let x = 0 - spec_byte_sum(prefix) - prefix.len();
        assert(acc == x % 256);
        let y = acc - s.last() - 1;
        vstd::arithmetic::div_mod::lemma_mod_adds(x, 0 - s.last() - 1, 256);
        vstd::arithmetic::div_mod::lemma_mod_twice(x, 256);
        assert((x % 256 + (0 - s.last() - 1)) % 256 == (x + (0 - s.last() - 1)) % 256) by {
            vstd::arithmetic::div_mod::lemma_mod_adds(x % 256, 0 - s.last() - 1, 256);
        };
    }
}

/// Two sequences that differ in exactly one place have sums that differ by
/// exactly that place's difference.
proof fn lemma_byte_sum_single_difference(s1: Seq<u8>, s2: Seq<u8>, i: int)
    requires
        s1.len() == s2.len(),
        0 <= i < s1.len(),
        forall|j: int| 0 <= j < s1.len() && j != i ==> s1[j] == s2[j],
    ensures
        spec_byte_sum(s1) - spec_byte_sum(s2) == s1[i] - s2[i],
    decreases s1.len(),
{
    let last = s1.len() - 1;
    if i == last {
        assert(s1.drop_last() =~= s2.drop_last());
    } else {
        lemma_byte_sum_single_difference(s1.drop_last(), s2.drop_last(), i);
    }
}

/// Flipping any single byte of the checksummed region changes the header
/// checksum: the recomputation admits no single-byte false positive.
pub proof fn lemma_header_checksum_detects_single_flip(s1: Seq<u8>, s2: Seq<u8>, i: int)
    requires
        s1.len() == s2.len(),
        s1.len() < 256,
        0 <= i < s1.len(),
        s1[i] != s2[i],
        forall|j: int| 0 <= j < s1.len() && j != i ==> s1[j] == s2[j],
    ensures
        spec_header_checksum(s1) != spec_header_checksum(s2),
{
    lemma_header_checksum_closed_form(s1);
    lemma_header_checksum_closed_form(s2);
    lemma_byte_sum_single_difference(s1, s2, i);
    let a = 0 - spec_byte_sum(s1) - s1.len();
    let b = 0 - spec_byte_sum(s2) - s2.len();
    let d = b - a;
    assert(d == s1[i] - s2[i]);
    assert(-256 < d < 256 && d != 0);
    if a % 256 == b % 256 {
        vstd::arithmetic::div_mod::lemma_fundamental_div_mod(a, 256);
        vstd::arithmetic::div_mod::lemma_fundamental_div_mod(b, 256);
        let qa = a / 256;
        let qb = b / 256;
        assert(d == 256 * (qb - qa));
        assert(qb - qa != 0 ==> (qb - qa >= 1 || qb - qa <= -1));
        assert(qb - qa >= 1 ==> 256 * (qb - qa) >= 256) by (nonlinear_arith);
        assert(qb - qa <= -1 ==> 256 * (qb - qa) <= -256) by (nonlinear_arith);
        assert(false);
    }
}

} // verus!
