//! Low-level command (`rt/lowcmd`) helpers: initialization and CRC.
//!
//! The Go2 validates every `LowCmd` with a CRC32 over the 32-bit words of its
//! C (`#[repr(C)]`) memory image, all words except the trailing `crc` field. A
//! command with a wrong CRC is silently dropped by the robot, so [`set_crc`]
//! must be called on each command right before publishing.
//!
//! The memory image is built explicitly here ([`lowcmd_words`]): fields in
//! declaration order at their natural C alignment, padding bytes zero, words
//! read little-endian (the byte order of both supported targets, x86_64 and
//! aarch64). It is 203 words (812 bytes) long.

use vstd::prelude::*;
use crate::unitree_go::{BmsCmd, LowCmd, MotorCmd};

verus! {

/// Bit pattern of `PosStopF` (`2.146e9_f32`): the position target that disables
/// position control on a motor.
pub const POS_STOP_F_BITS: u32 = 0x4EFF_D2B9;

/// Bit pattern of `VelStopF` (`16000.0_f32`): the velocity target that disables
/// velocity control on a motor.
pub const VEL_STOP_F_BITS: u32 = 0x467A_0000;

/// The CRC polynomial `0x04C11DB7`.
pub const CRC_POLY: u32 = 0x04c1_1db7;

/// Number of 32-bit words in the C memory image of a `LowCmd`.
pub const LOWCMD_WORDS: usize = 203;

// ---------------------------------------------------------------------------
// CRC32 (MSB-first, poly 0x04C11DB7, init 0xFFFFFFFF, no reflection, no final xor)
// ---------------------------------------------------------------------------

/// Bit `k` of `word`, counting from the most significant bit (`k == 0`).
pub open spec fn msb_bit(word: u32, k: u32) -> bool {
    (word >> (31 - k) as u32) & 1 == 1
}

/// One step of the shift register: shift left, xoring in the polynomial when
/// the bit shifted out was set, then xor in the polynomial again when the data
/// bit is set.
pub open spec fn crc_bit_step(crc: u32, bit: bool) -> u32 {
    let c = if crc & 0x8000_0000 != 0 {
        (crc << 1u32) ^ CRC_POLY
    } else {
        crc << 1u32
    };
    if bit {
        c ^ CRC_POLY
    } else {
        c
    }
}

/// The register after feeding the first `n` bits of `word`, most significant first.
pub open spec fn crc_feed_bits(crc: u32, word: u32, n: nat) -> u32
    decreases n,
{
    if n == 0 {
        crc
    } else {
        crc_bit_step(crc_feed_bits(crc, word, (n - 1) as nat), msb_bit(word, (n - 1) as u32))
    }
}

/// Unitree's CRC32 of a sequence of words: the register starts at `0xFFFFFFFF`
/// and takes the 32 bits of each word in turn.
pub open spec fn crc32_words(words: Seq<u32>) -> u32
    decreases words.len(),
{
    if words.len() == 0 {
        0xFFFF_FFFF
    } else {
        crc_feed_bits(crc32_words(words.drop_last()), words.last(), 32)
    }
}

proof fn lemma_bit_mask(word: u32, i: u32)
    requires
        i < 32,
    ensures
        (word & (0x8000_0000u32 >> i) != 0) == msb_bit(word, i),
        (0x8000_0000u32 >> i) >> 1u32 == 0x8000_0000u32 >> (i + 1) as u32,
{
    assert((word & (0x8000_0000u32 >> i) != 0) == ((word >> (31 - i) as u32) & 1 == 1))
        by (bit_vector)
        requires
            i < 32,
    ;
    assert((0x8000_0000u32 >> i) >> 1u32 == 0x8000_0000u32 >> (i + 1) as u32) by (bit_vector)
        requires
            i < 32,
    ;
}

/// Unitree's CRC32 (poly `0x04C11DB7`, init `0xFFFFFFFF`, MSB-first, no final
/// XOR or reflection), computed word-by-word over a `u32` slice.
pub fn crc32_core(data: &[u32]) -> (crc: u32)
    ensures
        crc == crc32_words(data@),
{
    let mut crc: u32 = 0xFFFF_FFFF;
    let mut w: usize = 0;
    assert(data@.take(0) =~= Seq::<u32>::empty());
    while w < data.len()
        invariant
            w <= data@.len(),
            crc == crc32_words(data@.take(w as int)),
        decreases data@.len() - w,
    {
        let word = data[w];
        let ghost start = crc;
        let mut xbit: u32 = 1u32 << 31u32;
        let mut i: u32 = 0;
        assert(xbit == 0x8000_0000u32 >> 0u32) by (bit_vector)
            requires
                xbit == 1u32 << 31u32,
        ;
        while i < 32
            invariant
                i <= 32,
                xbit == 0x8000_0000u32 >> i,
                crc == crc_feed_bits(start, word, i as nat),
            decreases 32 - i,
        {
            proof {
                lemma_bit_mask(word, i);
            }
            if crc & 0x8000_0000 != 0 {
                crc = (crc << 1u32) ^ CRC_POLY;
            } else {
                crc = crc << 1u32;
            }
            if word & xbit != 0 {
                crc = crc ^ CRC_POLY;
            }
            xbit = xbit >> 1u32;
            i += 1;
        }
        proof {
            let t = data@.take(w + 1);
            assert(t.drop_last() =~= data@.take(w as int));
            assert(t.last() == word);
        }
        w += 1;
    }
    assert(data@.take(w as int) =~= data@);
    crc
}

// ---------------------------------------------------------------------------
// Error detection: the CRC as a polynomial shift register
// ---------------------------------------------------------------------------

/// The register shifted by one zero bit: multiplication by `x` modulo the
/// polynomial.
pub open spec fn crc_shift(c: u32) -> u32 {
    if c & 0x8000_0000 != 0 {
        (c << 1u32) ^ CRC_POLY
    } else {
        c << 1u32
    }
}

/// The register shifted by `n` zero bits.
pub open spec fn crc_shift_n(c: u32, n: nat) -> u32
    decreases n,
{
    if n == 0 {
        c
    } else {
        crc_shift(crc_shift_n(c, (n - 1) as nat))
    }
}

/// The bits of `w` not yet fed after `n` of them: `w` shifted left by `n`.
pub open spec fn unfed_bits(w: u32, n: nat) -> u32 {
    if n < 32 {
        w << (n as u32)
    } else {
        0
    }
}

/// Feeding one data bit is shifting the register with that bit xored in at the
/// top.
proof fn lemma_bit_step_is_shift(c: u32, w: u32, n: u32)
    requires
        n < 32,
    ensures
        crc_bit_step(c, msb_bit(w, n)) ^ unfed_bits(w, (n + 1) as nat) == crc_shift(c ^ (w << n)),
{
    if n < 31 {
        assert(crc_bit_step(c, msb_bit(w, n)) ^ (w << ((n + 1) as u32)) == crc_shift(c ^ (w << n)))
            by (bit_vector)
            requires
                n < 31,
        ;
    } else {
        assert(crc_bit_step(c, msb_bit(w, 31)) ^ 0u32 == crc_shift(c ^ (w << 31u32))) by (bit_vector);
    }
}

/// Feeding the first `n` bits of `w` into `c` is, up to the bits not yet fed,
/// shifting `c ^ w` by `n` zero bits.
proof fn lemma_feed_bits_is_shift(c: u32, w: u32, n: nat)
    requires
        n <= 32,
    ensures
        crc_feed_bits(c, w, n) ^ unfed_bits(w, n) == crc_shift_n(c ^ w, n),
    decreases n,
{
    if n == 0 {
        assert(w << 0u32 == w) by (bit_vector);
    } else {
        let m = (n - 1) as nat;
        lemma_feed_bits_is_shift(c, w, m);
        let b = crc_feed_bits(c, w, m);
        lemma_bit_step_is_shift(b, w, m as u32);
        assert(unfed_bits(w, m) == w << (m as u32));
    }
}

/// Feeding a whole word `w` into `c` is shifting `c ^ w` by 32 zero bits.
proof fn lemma_feed_word(c: u32, w: u32)
    ensures
        crc_feed_bits(c, w, 32) == crc_shift_n(c ^ w, 32),
{
    lemma_feed_bits_is_shift(c, w, 32);
    let f = crc_feed_bits(c, w, 32);
    assert(f ^ 0u32 == f) by (bit_vector);
}

/// A shift by any number of zero bits loses no information (the polynomial's
/// constant term is 1, so the bit shifted out shows in the lowest bit).
proof fn lemma_shift_n_injective(a: u32, b: u32, n: nat)
    requires
        a != b,
    ensures
        crc_shift_n(a, n) != crc_shift_n(b, n),
    decreases n,
{
    if n > 0 {
        lemma_shift_n_injective(a, b, (n - 1) as nat);
        let x = crc_shift_n(a, (n - 1) as nat);
        let y = crc_shift_n(b, (n - 1) as nat);
        assert(x != y ==> crc_shift(x) != crc_shift(y)) by (bit_vector);
    }
}

/// Words that differ give different registers from a common start.
proof fn lemma_feed_word_distinct(c: u32, d: u32, w: u32, v: u32)
    requires
        c ^ w != d ^ v,
    ensures
        crc_feed_bits(c, w, 32) != crc_feed_bits(d, v, 32),
{
    lemma_feed_word(c, w);
    lemma_feed_word(d, v);
    lemma_shift_n_injective(c ^ w, d ^ v, 32);
}

/// Two word sequences that differ in exactly the word at index `i` have
/// different CRCs over every prefix that takes in index `i`.
proof fn lemma_crc_prefixes_differ(a: Seq<u32>, b: Seq<u32>, i: int, k: int)
    requires
        a.len() == b.len(),
        0 <= i < k <= a.len(),
        a[i] != b[i],
        forall|j: int| 0 <= j < a.len() && j != i ==> a[j] == b[j],
    ensures
        crc32_words(a.take(k)) != crc32_words(b.take(k)),
    decreases k,
{
    let ta = a.take(k);
    let tb = b.take(k);
    assert(ta.drop_last() =~= a.take(k - 1));
    assert(tb.drop_last() =~= b.take(k - 1));
    assert(ta.last() == a[k - 1]);
    assert(tb.last() == b[k - 1]);
    let ra = crc32_words(a.take(k - 1));
    let rb = crc32_words(b.take(k - 1));
    let wa = a[k - 1];
    let wb = b[k - 1];
    if k - 1 == i {
        assert(a.take(k - 1) =~= b.take(k - 1));
        assert(ra == rb);
        assert(ra == rb && wa != wb ==> ra ^ wa != rb ^ wb) by (bit_vector);
    } else {
        lemma_crc_prefixes_differ(a, b, i, k - 1);
        assert(wa == wb);
        assert(ra != rb && wa == wb ==> ra ^ wa != rb ^ wb) by (bit_vector);
    }
    lemma_feed_word_distinct(ra, rb, wa, wb);
}

/// Changing any one word of the data always changes the CRC.
pub proof fn lemma_crc_detects_one_changed_word(a: Seq<u32>, b: Seq<u32>, i: int)
    requires
        a.len() == b.len(),
        0 <= i < a.len(),
        a[i] != b[i],
        forall|j: int| 0 <= j < a.len() && j != i ==> a[j] == b[j],
    ensures
        crc32_words(a) != crc32_words(b),
{
    lemma_crc_prefixes_differ(a, b, i, a.len() as int);
    assert(a.take(a.len() as int) =~= a);
    assert(b.take(b.len() as int) =~= b);
}

// ---------------------------------------------------------------------------
// The C memory image of a LowCmd
// ---------------------------------------------------------------------------

/// The little-endian 32-bit word with bytes `b0 b1 b2 b3`.
pub open spec fn word_of_bytes(b0: u8, b1: u8, b2: u8, b3: u8) -> u32 {
    (b0 as int + 0x100 * (b1 as int) + 0x1_0000 * (b2 as int) + 0x100_0000 * (b3 as int)) as u32
}

/// A byte array whose length is a multiple of 4, read as words.
pub open spec fn bytes_as_words(b: Seq<u8>) -> Seq<u32> {
    Seq::new(
        b.len() / 4,
        |k: int| word_of_bytes(b[4 * k], b[4 * k + 1], b[4 * k + 2], b[4 * k + 3]),
    )
}

/// The 9 words of one `MotorCmd`: `mode` and 3 padding bytes, the five gains
/// and targets, and the 3 reserve words.
pub open spec fn motor_cmd_words(m: MotorCmd) -> Seq<u32> {
    seq![m.mode as u32, m.q, m.dq, m.tau, m.kp, m.kd] + m.reserve@
}

/// The words of a run of `MotorCmd`s, back to back.
pub open spec fn motor_cmds_words(ms: Seq<MotorCmd>) -> Seq<u32>
    decreases ms.len(),
{
    if ms.len() == 0 {
        Seq::empty()
    } else {
        motor_cmds_words(ms.drop_last()) + motor_cmd_words(ms.last())
    }
}

/// The word of a `BmsCmd`: `off` and its 3 reserve bytes.
pub open spec fn bms_cmd_word(b: BmsCmd) -> u32 {
    word_of_bytes(b.off, b.reserve@[0], b.reserve@[1], b.reserve@[2])
}

/// The 203 words of the C memory image of `cmd`.
pub open spec fn lowcmd_words(cmd: LowCmd) -> Seq<u32> {
    seq![
        word_of_bytes(cmd.head@[0], cmd.head@[1], cmd.level_flag, cmd.frame_reserve),
        cmd.sn@[0],
        cmd.sn@[1],
        cmd.version@[0],
        cmd.version@[1],
        cmd.bandwidth as u32,
    ] + motor_cmds_words(cmd.motor_cmd@) + seq![bms_cmd_word(cmd.bms_cmd)] + bytes_as_words(
        cmd.wireless_remote@,
    ) + bytes_as_words(cmd.led@) + seq![
        word_of_bytes(cmd.fan@[0], cmd.fan@[1], cmd.gpio, 0),
        cmd.reserve,
        cmd.crc,
    ]
}

/// The CRC the robot expects for `cmd`: over every word but the last (`crc`).
pub open spec fn lowcmd_crc(cmd: LowCmd) -> u32 {
    crc32_words(lowcmd_words(cmd).take(LOWCMD_WORDS - 1))
}

/// `cmd` with its `crc` field set to `c`.
pub open spec fn with_crc(cmd: LowCmd, c: u32) -> LowCmd {
    LowCmd { crc: c, ..cmd }
}

fn push_word(words: &mut Vec<u32>, b0: u8, b1: u8, b2: u8, b3: u8)
    ensures
        final(words)@ == old(words)@.push(word_of_bytes(b0, b1, b2, b3)),
{
    let w: u32 = b0 as u32 + 0x100 * (b1 as u32) + 0x1_0000 * (b2 as u32) + 0x100_0000 * (b3 as u32);
    words.push(w);
}

fn push_bytes_as_words(words: &mut Vec<u32>, b: &[u8])
    requires
        b@.len() % 4 == 0,
    ensures
        final(words)@ == old(words)@ + bytes_as_words(b@),
{
    let n = b.len() / 4;
    let mut k: usize = 0;
    while k < n
        invariant
            n == b@.len() / 4,
            b@.len() % 4 == 0,
            b@.len() <= usize::MAX,
            k <= n,
            words@ == old(words)@ + bytes_as_words(b@).take(k as int),
        decreases n - k,
    {
        assert(4 * k + 3 < b@.len()) by (nonlinear_arith)
            requires
                k < n,
                n == b@.len() / 4,
        ;
        push_word(words, b[4 * k], b[4 * k + 1], b[4 * k + 2], b[4 * k + 3]);
        k += 1;
        assert(words@ =~= old(words)@ + bytes_as_words(b@).take(k as int));
    }
    assert(bytes_as_words(b@).take(n as int) =~= bytes_as_words(b@));
}

/// The C memory image of `cmd`, as 32-bit words.
fn lowcmd_image(cmd: &LowCmd) -> (words: Vec<u32>)
    ensures
        words@ == lowcmd_words(*cmd),
{
    let mut words: Vec<u32> = Vec::new();
    push_word(&mut words, cmd.head[0], cmd.head[1], cmd.level_flag, cmd.frame_reserve);
    words.push(cmd.sn[0]);
    words.push(cmd.sn[1]);
    words.push(cmd.version[0]);
    words.push(cmd.version[1]);
    words.push(cmd.bandwidth as u32);
    let ghost head = words@;
    let mut j: usize = 0;
    assert(cmd.motor_cmd@.take(0) =~= Seq::<MotorCmd>::empty());
    while j < 20
        invariant
            j <= 20,
            words@ == head + motor_cmds_words(cmd.motor_cmd@.take(j as int)),
        decreases 20 - j,
    {
        let m = cmd.motor_cmd[j];
        words.push(m.mode as u32);
        words.push(m.q);
        words.push(m.dq);
        words.push(m.tau);
        words.push(m.kp);
        words.push(m.kd);
        words.push(m.reserve[0]);
        words.push(m.reserve[1]);
        words.push(m.reserve[2]);
        proof {
            let t = cmd.motor_cmd@.take(j + 1);
            assert(t.drop_last() =~= cmd.motor_cmd@.take(j as int));
            assert(t.last() == m);
            assert(words@ =~= head + motor_cmds_words(t));
        }
        j += 1;
    }
    assert(cmd.motor_cmd@.take(20) =~= cmd.motor_cmd@);
    push_word(
        &mut words,
        cmd.bms_cmd.off,
        cmd.bms_cmd.reserve[0],
        cmd.bms_cmd.reserve[1],
        cmd.bms_cmd.reserve[2],
    );
    push_bytes_as_words(&mut words, cmd.wireless_remote.as_slice());
    push_bytes_as_words(&mut words, cmd.led.as_slice());
    push_word(&mut words, cmd.fan[0], cmd.fan[1], cmd.gpio, 0);
    words.push(cmd.reserve);
    words.push(cmd.crc);
    assert(words@ =~= lowcmd_words(*cmd));
    words
}

pub proof fn lemma_lowcmd_words_len(cmd: LowCmd)
    ensures
        lowcmd_words(cmd).len() == LOWCMD_WORDS,
{
    lemma_motor_cmds_words_len(cmd.motor_cmd@);
}

proof fn lemma_motor_cmds_words_len(ms: Seq<MotorCmd>)
    ensures
        motor_cmds_words(ms).len() == 9 * ms.len(),
    decreases ms.len(),
{
    if ms.len() > 0 {
        lemma_motor_cmds_words_len(ms.drop_last());
    }
}

/// Word `9 * j + k` of a run of motor commands is field `k` of command `j`, in
/// declaration order: `mode` (its padding bytes zero), `q`, `dq`, `tau`, `kp`,
/// `kd`, then the three `reserve` words.
pub proof fn lemma_motor_cmds_words_layout(ms: Seq<MotorCmd>, j: int)
    requires
        0 <= j < ms.len(),
    ensures
        motor_cmds_words(ms).len() == 9 * ms.len(),
        motor_cmds_words(ms)[9 * j] == ms[j].mode as u32,
        motor_cmds_words(ms)[9 * j + 1] == ms[j].q,
        motor_cmds_words(ms)[9 * j + 2] == ms[j].dq,
        motor_cmds_words(ms)[9 * j + 3] == ms[j].tau,
        motor_cmds_words(ms)[9 * j + 4] == ms[j].kp,
        motor_cmds_words(ms)[9 * j + 5] == ms[j].kd,
        motor_cmds_words(ms)[9 * j + 6] == ms[j].reserve@[0],
        motor_cmds_words(ms)[9 * j + 7] == ms[j].reserve@[1],
        motor_cmds_words(ms)[9 * j + 8] == ms[j].reserve@[2],
    decreases ms.len(),
{
    lemma_motor_cmds_words_len(ms);
    let init = ms.drop_last();
    lemma_motor_cmds_words_len(init);
    if j < ms.len() - 1 {
        lemma_motor_cmds_words_layout(init, j);
        assert(init[j] == ms[j]);
    } else {
        assert(ms.last() == ms[j]);
    }
}

/// The word image the CRC is taken over is the `#[repr(C)]` layout of a
/// `LowCmd`: 203 little-endian words, each field at its C offset, padding bytes
/// zero. In particular motor `j`'s `kp` is word `10 + 9 * j` and its `kd` is
/// word `11 + 9 * j`, and the stored `crc` is the last word.
pub proof fn lemma_lowcmd_image_layout(cmd: LowCmd)
    ensures
        lowcmd_words(cmd).len() == 203,
        lowcmd_words(cmd)[0] == (cmd.head@[0] + 0x100 * cmd.head@[1] + 0x1_0000 * cmd.level_flag + 0x100_0000
            * cmd.frame_reserve) as u32,
        lowcmd_words(cmd)[1] == cmd.sn@[0],
        lowcmd_words(cmd)[2] == cmd.sn@[1],
        lowcmd_words(cmd)[3] == cmd.version@[0],
        lowcmd_words(cmd)[4] == cmd.version@[1],
        lowcmd_words(cmd)[5] == cmd.bandwidth as u32,
        forall|j: int|
            #![trigger cmd.motor_cmd@[j]]
            0 <= j < 20 ==> {
                &&& lowcmd_words(cmd)[6 + 9 * j] == cmd.motor_cmd@[j].mode as u32
                &&& lowcmd_words(cmd)[7 + 9 * j] == cmd.motor_cmd@[j].q
                &&& lowcmd_words(cmd)[8 + 9 * j] == cmd.motor_cmd@[j].dq
                &&& lowcmd_words(cmd)[9 + 9 * j] == cmd.motor_cmd@[j].tau
                &&& lowcmd_words(cmd)[10 + 9 * j] == cmd.motor_cmd@[j].kp
                &&& lowcmd_words(cmd)[11 + 9 * j] == cmd.motor_cmd@[j].kd
                &&& lowcmd_words(cmd)[12 + 9 * j] == cmd.motor_cmd@[j].reserve@[0]
                &&& lowcmd_words(cmd)[13 + 9 * j] == cmd.motor_cmd@[j].reserve@[1]
                &&& lowcmd_words(cmd)[14 + 9 * j] == cmd.motor_cmd@[j].reserve@[2]
            },
        lowcmd_words(cmd)[186] == (cmd.bms_cmd.off + 0x100 * cmd.bms_cmd.reserve@[0] + 0x1_0000
            * cmd.bms_cmd.reserve@[1] + 0x100_0000 * cmd.bms_cmd.reserve@[2]) as u32,
        forall|k: int|
            0 <= k < 10 ==> #[trigger] lowcmd_words(cmd)[187 + k] == (cmd.wireless_remote@[4 * k] + 0x100
                * cmd.wireless_remote@[4 * k + 1] + 0x1_0000 * cmd.wireless_remote@[4 * k + 2] + 0x100_0000
                * cmd.wireless_remote@[4 * k + 3]) as u32,
        forall|k: int|
            0 <= k < 3 ==> #[trigger] lowcmd_words(cmd)[197 + k] == (cmd.led@[4 * k] + 0x100 * cmd.led@[4
                * k + 1] + 0x1_0000 * cmd.led@[4 * k + 2] + 0x100_0000 * cmd.led@[4 * k + 3]) as u32,
        lowcmd_words(cmd)[200] == (cmd.fan@[0] + 0x100 * cmd.fan@[1] + 0x1_0000 * cmd.gpio) as u32,
        lowcmd_words(cmd)[201] == cmd.reserve,
        lowcmd_words(cmd)[202] == cmd.crc,
{
    let ms = cmd.motor_cmd@;
    lemma_motor_cmds_words_len(ms);
    let w = lowcmd_words(cmd);
    let head = seq![
        word_of_bytes(cmd.head@[0], cmd.head@[1], cmd.level_flag, cmd.frame_reserve),
        cmd.sn@[0],
        cmd.sn@[1],
        cmd.version@[0],
        cmd.version@[1],
        cmd.bandwidth as u32,
    ];
    let mw = motor_cmds_words(ms);
    let wr = bytes_as_words(cmd.wireless_remote@);
    let led = bytes_as_words(cmd.led@);
    assert(w =~= head + mw + seq![bms_cmd_word(cmd.bms_cmd)] + wr + led + seq![
        word_of_bytes(cmd.fan@[0], cmd.fan@[1], cmd.gpio, 0),
        cmd.reserve,
        cmd.crc,
    ]);
    assert forall|j: int| #![trigger cmd.motor_cmd@[j]] 0 <= j < 20 implies {
        &&& w[6 + 9 * j] == cmd.motor_cmd@[j].mode as u32
        &&& w[7 + 9 * j] == cmd.motor_cmd@[j].q
        &&& w[8 + 9 * j] == cmd.motor_cmd@[j].dq
        &&& w[9 + 9 * j] == cmd.motor_cmd@[j].tau
        &&& w[10 + 9 * j] == cmd.motor_cmd@[j].kp
        &&& w[11 + 9 * j] == cmd.motor_cmd@[j].kd
        &&& w[12 + 9 * j] == cmd.motor_cmd@[j].reserve@[0]
        &&& w[13 + 9 * j] == cmd.motor_cmd@[j].reserve@[1]
        &&& w[14 + 9 * j] == cmd.motor_cmd@[j].reserve@[2]
    } by {
        lemma_motor_cmds_words_layout(ms, j);
    }
    assert forall|k: int| 0 <= k < 10 implies #[trigger] w[187 + k] == (cmd.wireless_remote@[4 * k] + 0x100
        * cmd.wireless_remote@[4 * k + 1] + 0x1_0000 * cmd.wireless_remote@[4 * k + 2] + 0x100_0000
        * cmd.wireless_remote@[4 * k + 3]) as u32 by {
        assert(w[187 + k] == wr[k]);
    }
    assert forall|k: int| 0 <= k < 3 implies #[trigger] w[197 + k] == (cmd.led@[4 * k] + 0x100 * cmd.led@[4
        * k + 1] + 0x1_0000 * cmd.led@[4 * k + 2] + 0x100_0000 * cmd.led@[4 * k + 3]) as u32 by {
        assert(w[197 + k] == led[k]);
    }
}

/// Compute and store the CRC over `cmd`, exactly as the robot expects: every
/// word of the C memory image except the final `crc` word.
pub fn set_crc(cmd: &mut LowCmd)
    ensures
        *final(cmd) == with_crc(*old(cmd), lowcmd_crc(*old(cmd))),
{
    let words = lowcmd_image(cmd);
    proof {
        lemma_lowcmd_words_len(*cmd);
    }
    let len = words.len();
    let crc = crc32_core(&words.as_slice()[0..len - 1]);
    cmd.crc = crc;
}

/// The CRC does not depend on the `crc` field it is stored in.
pub proof fn lemma_lowcmd_crc_ignores_crc_field(cmd: LowCmd, c: u32)
    ensures
        lowcmd_crc(with_crc(cmd, c)) == lowcmd_crc(cmd),
{
    lemma_lowcmd_words_len(cmd);
    lemma_lowcmd_words_len(with_crc(cmd, c));
    assert(lowcmd_words(with_crc(cmd, c)).take(LOWCMD_WORDS - 1) =~= lowcmd_words(cmd).take(
        LOWCMD_WORDS - 1,
    ));
}

/// Setting the CRC twice is the same as setting it once.
pub proof fn lemma_set_crc_idempotent(cmd: LowCmd)
    ensures
        with_crc(with_crc(cmd, lowcmd_crc(cmd)), lowcmd_crc(with_crc(cmd, lowcmd_crc(cmd))))
            == with_crc(cmd, lowcmd_crc(cmd)),
{
    lemma_lowcmd_crc_ignores_crc_field(cmd, lowcmd_crc(cmd));
}

// ---------------------------------------------------------------------------
// Initialization
// ---------------------------------------------------------------------------

/// A motor in servo (PMSM) mode with position and velocity control disabled
/// and all gains zero.
pub open spec fn is_idle_servo(m: MotorCmd) -> bool {
    &&& m.mode == 0x01
    &&& m.q == POS_STOP_F_BITS
    &&& m.dq == VEL_STOP_F_BITS
    &&& m.tau == 0 && m.kp == 0 && m.kd == 0
    &&& forall|i: int| 0 <= i < 3 ==> #[trigger] m.reserve@[i] == 0
}

/// The command [`init_lowcmd`] builds: header `0xFE 0xEF`, `level_flag = 0xFF`,
/// every motor an idle servo, everything else zero.
pub open spec fn is_initial_lowcmd(cmd: LowCmd) -> bool {
    &&& cmd.head@ == seq![0xFEu8, 0xEFu8]
    &&& cmd.level_flag == 0xFF
    &&& cmd.frame_reserve == 0
    &&& forall|i: int| 0 <= i < 2 ==> #[trigger] cmd.sn@[i] == 0
    &&& forall|i: int| 0 <= i < 2 ==> #[trigger] cmd.version@[i] == 0
    &&& cmd.bandwidth == 0
    &&& forall|j: int| 0 <= j < 20 ==> is_idle_servo(#[trigger] cmd.motor_cmd@[j])
    &&& cmd.bms_cmd.is_zeroed()
    &&& forall|i: int| 0 <= i < 40 ==> #[trigger] cmd.wireless_remote@[i] == 0
    &&& forall|i: int| 0 <= i < 12 ==> #[trigger] cmd.led@[i] == 0
    &&& forall|i: int| 0 <= i < 2 ==> #[trigger] cmd.fan@[i] == 0
    &&& cmd.gpio == 0
    &&& cmd.reserve == 0
    &&& cmd.crc == 0
}

/// Build a `LowCmd` initialized for low-level (direct motor) control.
///
/// Sets the protocol header (`0xFE 0xEF`), `level_flag = 0xFF`, and puts every
/// one of the 20 motor slots into servo (PMSM) mode with position/velocity
/// control disabled (`q = PosStopF`, `dq = VelStopF`, gains zero). Callers then
/// fill in `motor_cmd[..12]` (`q`/`kp`/`kd`) for the leg joints each tick.
pub fn init_lowcmd() -> (cmd: LowCmd)
    ensures
        is_initial_lowcmd(cmd),
{
    let mut cmd = LowCmd::default();
    cmd.head = [0xFE, 0xEF];
    cmd.level_flag = 0xFF;
    let m = MotorCmd {
        mode: 0x01,  // servo (PMSM) mode
        q: POS_STOP_F_BITS,
        dq: VEL_STOP_F_BITS,
        tau: 0,
        kp: 0,
        kd: 0,
        reserve: [0u32; 3],
    };
    cmd.motor_cmd = [m; 20];
    assert(cmd.head@ =~= seq![0xFEu8, 0xEFu8]);
    cmd
}

} // verus!
