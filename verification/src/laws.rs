//! What holds of the driver as a whole.
//!
//! Each lemma here is stated over the same functions that the contracts of
//! the driver's operations speak of, so that it holds of what those
//! operations return.

use vstd::prelude::*;
use vstd::arithmetic::div_mod::lemma_div_is_ordered_by_denominator;
use crate::config::{
    prescaler_for_ratio, spec_compute_baud_rate, spec_compute_frequency, spec_frequency_reachable,
    Config, Hertz,
};
use crate::blocking::{
    blocking_program, blocking_prologue, exchange_program, slot, spec_transfer_word,
};
use crate::dma::{
    after_dma, transfer_admitted, dma_completion, dma_go, dma_preparation, dma_starts, lemma_dma_program_parts,
    spec_finish_dma, spec_set_rxdmaen, transfer_program, write_program,
};
use crate::program::{
    modify, program_fits, registers_after, spec_rx_register, spec_tx_register, Channel, Instr, Op,
    TxSource,
};
use crate::regs::{Br, Dff, Frxth, Patch, Register, Registers};
use crate::sequencer::{Action, Event, SequencerView, Stage};
use crate::spi::{config_program, init_program, read_config, word_size_program, SpiView};
use crate::status::{spec_check_error_flags, spec_flush_rx_fifo, Condition, Status};
use crate::version::Version;
use crate::word::{WordConfig, WordSize};

verus! {

/// The bus frequency that a request for `freq` results in.
pub open spec fn achieved_frequency(kernel_clock: Hertz, freq: Hertz) -> Hertz {
    spec_compute_frequency(kernel_clock, spec_compute_baud_rate(kernel_clock, freq))
}

/// A larger ratio of input clock to request never selects a faster
/// prescaler.
pub proof fn lemma_prescaler_monotonic(small: int, large: int)
    requires
        small <= large,
    ensures
        prescaler_for_ratio(small).spec_divisor() <= prescaler_for_ratio(large).spec_divisor(),
{
}

/// Asking for more never yields less: of two requests for the same
/// peripheral, the higher one results in a bus frequency at least as high
/// as the lower one does.
pub proof fn lemma_frequency_monotonic(kernel_clock: Hertz, lower: Hertz, higher: Hertz)
    requires
        0 < lower.0 < higher.0 <= kernel_clock.0,
    ensures
        achieved_frequency(kernel_clock, lower).0 <= achieved_frequency(kernel_clock, higher).0,
{
    let k = kernel_clock.0 as int;
    lemma_div_is_ordered_by_denominator(k, lower.0 as int, higher.0 as int);
    lemma_prescaler_monotonic(k / (higher.0 as int), k / (lower.0 as int));
    let slow = spec_compute_baud_rate(kernel_clock, lower).spec_divisor() as int;
    let fast = spec_compute_baud_rate(kernel_clock, higher).spec_divisor() as int;
    lemma_div_is_ordered_by_denominator(k, fast, slow);
}

/// A request that is an exact fraction of the input clock, by one of the
/// prescaler's divisors, is met exactly.
pub proof fn lemma_exact_frequency(kernel_clock: Hertz, freq: Hertz, br: Br)
    requires
        0 < freq.0,
        freq.0 * br.spec_divisor() == kernel_clock.0,
    ensures
        spec_compute_baud_rate(kernel_clock, freq) == br,
        achieved_frequency(kernel_clock, freq) == freq,
{
    let f = freq.0 as int;
    let d = br.spec_divisor() as int;
    assert((f * d) / f == d) by (nonlinear_arith)
        requires
            0 < f,
    ;
    assert((f * d) / d == f) by (nonlinear_arith)
        requires
            0 < d,
    ;
}

/// Reconfiguring and reading back returns the mode and the bit order that
/// were asked for, whatever the frequency, and the frequency that the
/// request results in.
pub proof fn lemma_config_round_trip(
    version: Version,
    kernel_clock: Hertz,
    config: Config,
    regs: Registers,
)
    ensures
        ({
            let after = registers_after(regs, config_program(version, kernel_clock, config));
            let back = read_config(kernel_clock, after);
            &&& back.mode == config.mode
            &&& back.bit_order == config.bit_order
            &&& back.frequency == achieved_frequency(kernel_clock, config.frequency)
        }),
{
    reveal(Registers::patched);
    let program = config_program(version, kernel_clock, config);
    reveal_with_fuel(registers_after, 3);
    if program.len() == 2 {
        assert(program.drop_last() =~= seq![program[0]]);
        assert(program.drop_last().drop_last() =~= Seq::<Instr>::empty());
    } else {
        assert(program.drop_last() =~= Seq::<Instr>::empty());
    }
}

/// Reconfiguring with a frequency that is an exact fraction of the input
/// clock and reading back returns the whole configuration.
pub proof fn lemma_config_round_trip_exact(
    version: Version,
    kernel_clock: Hertz,
    config: Config,
    br: Br,
    regs: Registers,
)
    requires
        0 < config.frequency.0,
        config.frequency.0 * br.spec_divisor() == kernel_clock.0,
    ensures
        read_config(
            kernel_clock,
            registers_after(regs, config_program(version, kernel_clock, config)),
        ) == config,
{
    lemma_config_round_trip(version, kernel_clock, config, regs);
    lemma_exact_frequency(kernel_clock, config.frequency, br);
}

/// Setting the word size that is already set does nothing: once a size has
/// been programmed, programming it again takes no instruction and leaves
/// what the driver knows as it is.
pub proof fn lemma_word_size_twice(before: SpiView, word_size: WordSize)
    ensures
        ({
            let first = SpiView { current_word_size: word_size, ..before };
            let second = SpiView { current_word_size: word_size, ..first };
            &&& word_size_program(first.version, first.current_word_size, word_size)
                == Seq::<Instr>::empty()
            &&& second == first
        }),
{
}

/// A DMA transfer of no words does nothing: its program is empty, so that
/// no register is touched and no channel is started, what the driver knows
/// stays as it is, and a sequencer that runs it finishes at once with
/// success.
pub proof fn lemma_empty_dma_transfer(before: SpiView, word_size: WordSize, source: TxSource)
    ensures
        write_program(before.version, before.current_word_size, word_size, 0)
            == Seq::<Instr>::empty(),
        transfer_program(before.version, before.current_word_size, word_size, 0, source)
            == Seq::<Instr>::empty(),
        after_dma(before, word_size, 0) == before,
        SequencerView::start(before.version, Seq::<Instr>::empty()).step(Event::Performed).1
            == Action::Finished(Ok(())),
{
}

/// The two DMA channels may complete in either order.  A sequencer that
/// waits for both stays suspended after the first completion, whichever it
/// is, and after the second it is in the same state and asks for the same
/// action in both orders.
pub proof fn lemma_join_order_independent(s: SequencerView)
    requires
        s.wf(),
        s.stage is Joining,
        s.tx_pending,
        s.rx_pending,
    ensures
        s.step(Event::Completed(Channel::Tx)).1 == Action::AwaitDma,
        s.step(Event::Completed(Channel::Rx)).1 == Action::AwaitDma,
        s.step(Event::Completed(Channel::Tx)).0.step(Event::Completed(Channel::Rx)) == s.step(
            Event::Completed(Channel::Rx),
        ).0.step(Event::Completed(Channel::Tx)),
        s.step(Event::Completed(Channel::Tx)).0.step(Event::Completed(Channel::Rx))
            == (SequencerView { tx_pending: false, rx_pending: false, ..s }).advance().fetch(),
{
}

/// A sequencer does not leave its program: every step of a well-formed
/// state leads to a well-formed state.
pub proof fn lemma_step_preserves_wf(s: SequencerView, event: Event)
    requires
        s.wf(),
    ensures
        s.step(event).0.wf(),
{
}

/// A finished program stays finished: whatever is reported to it, it
/// answers with its result and asks for nothing else.
pub proof fn lemma_finished_is_final(s: SequencerView, event: Event)
    requires
        s.stage is Finished,
    ensures
        s.step(event).0.stage == s.stage,
        s.step(event).1 == Action::Finished(s.stage->Finished_0),
{
}

/// An error flag ends the program at once.  When a wait for readiness sees
/// a sample with an error flag, the program finishes with that error, and
/// from then on no operation is handed out.
pub proof fn lemma_error_ends_program(s: SequencerView, sr: Status, event: Event)
    requires
        s.wf(),
        s.stage is Polling,
        s.program[s.pc as int] is Poll,
        spec_check_error_flags(s.version, sr) is Err,
    ensures
        ({
            let e = spec_check_error_flags(s.version, sr)->Err_0;
            let (failed, action) = s.step(Event::Status(sr));
            &&& action == Action::Finished(Err(e))
            &&& failed.stage == Stage::Finished(Err(e))
            &&& failed.step(event).1 == Action::Finished(Err(e))
        }),
{
}

/// The control fields after the first `k` instructions of a program are
/// those after the first `k - 1`, changed by the `k`-th.
pub proof fn lemma_registers_after_take(regs: Registers, program: Seq<Instr>, k: int)
    requires
        0 < k <= program.len(),
    ensures
        registers_after(regs, program.take(k)) == program[k - 1].effect(
            registers_after(regs, program.take(k - 1)),
        ),
        registers_after(regs, program.take(0)) == regs,
        program.take(program.len() as int) == program,
{
    assert(program.take(k).drop_last() =~= program.take(k - 1));
    assert(program.take(program.len() as int) =~= program);
}

/// Running two programs one after the other has the effect of the second
/// on the effect of the first.
pub proof fn lemma_registers_after_concat(regs: Registers, first: Seq<Instr>, second: Seq<Instr>)
    ensures
        registers_after(regs, first + second) == registers_after(
            registers_after(regs, first),
            second,
        ),
    decreases second.len(),
{
    if second.len() == 0 {
        assert(first + second =~= first);
    } else {
        assert((first + second).drop_last() =~= first + second.drop_last());
        lemma_registers_after_concat(regs, first, second.drop_last());
    }
}

/// Two programs that a peripheral can run make one that it can run.
pub proof fn lemma_program_fits_concat(version: Version, first: Seq<Instr>, second: Seq<Instr>)
    requires
        program_fits(version, first),
        program_fits(version, second),
    ensures
        program_fits(version, first + second),
{
    assert forall|i: int| 0 <= i < (first + second).len() implies (#[trigger] (first + second)[i]).fits(
        version,
    ) by {
        if i < first.len() {
            assert((first + second)[i] == first[i]);
        } else {
            assert((first + second)[i] == second[i - first.len()]);
        }
    }
}

/// The peripheral can run the program that brings it up.
pub proof fn lemma_init_program_fits(
    version: Version,
    kernel_clock: Hertz,
    mosi: bool,
    config: Config,
)
    ensures
        program_fits(version, init_program(version, kernel_clock, mosi, config)),
{
}

/// The peripheral can run the program that reconfigures it.
pub proof fn lemma_config_program_fits(version: Version, kernel_clock: Hertz, config: Config)
    ensures
        program_fits(version, config_program(version, kernel_clock, config)),
{
}

/// The peripheral can run the program that sets a word size it supports.
pub proof fn lemma_word_size_program_fits(version: Version, current: WordSize, new: WordSize)
    requires
        new.spec_supported(version),
    ensures
        program_fits(version, word_size_program(version, current, new)),
{
}

/// The peripheral can run the program that brings it to rest after DMA.
pub proof fn lemma_finish_dma_fits(version: Version)
    ensures
        program_fits(version, spec_finish_dma(version)),
{
}

/// The peripheral can run the exchange of any number of words.
pub proof fn lemma_exchange_program_fits(
    version: Version,
    count: nat,
    write_len: nat,
    read_len: nat,
)
    ensures
        program_fits(version, exchange_program(version, count, write_len, read_len)),
    decreases count,
{
    if count > 0 {
        lemma_exchange_program_fits(version, (count - 1) as nat, write_len, read_len);
        lemma_program_fits_concat(
            version,
            exchange_program(version, (count - 1) as nat, write_len, read_len),
            spec_transfer_word(
                version,
                slot(count - 1, write_len as int),
                slot(count - 1, read_len as int),
            ),
        );
    }
}

/// The peripheral can run every word-by-word transfer of words of a size
/// it supports.
pub proof fn lemma_blocking_program_fits(
    version: Version,
    current: WordSize,
    word_size: WordSize,
    write_len: nat,
    read_len: nat,
)
    requires
        word_size.spec_supported(version),
    ensures
        program_fits(
            version,
            blocking_program(version, current, word_size, write_len, read_len),
        ),
{
    let count = if write_len >= read_len {
        write_len
    } else {
        read_len
    };
    lemma_word_size_program_fits(version, current, word_size);
    lemma_exchange_program_fits(version, count, write_len, read_len);
    let enable = seq![modify(Register::Cr1, Patch { spe: Some(true), ..Patch::empty() })];
    let drain = if version.spec_is_gen3() {
        Seq::<Instr>::empty()
    } else {
        seq![Instr::Drain { from: spec_rx_register(version) }]
    };
    lemma_program_fits_concat(version, enable, drain);
    lemma_program_fits_concat(
        version,
        enable + drain,
        word_size_program(version, current, word_size),
    );
    lemma_program_fits_concat(
        version,
        blocking_prologue(version, current, word_size),
        exchange_program(version, count, write_len, read_len),
    );
}

/// The peripheral can run every DMA transfer of words of a size it
/// supports.
pub proof fn lemma_dma_programs_fit(
    version: Version,
    current: WordSize,
    word_size: WordSize,
    count: nat,
    source: TxSource,
)
    requires
        word_size.spec_supported(version),
    ensures
        program_fits(version, write_program(version, current, word_size, count)),
        program_fits(version, transfer_program(version, current, word_size, count, source)),
{
    lemma_word_size_program_fits(version, current, word_size);
    lemma_finish_dma_fits(version);
    if count > 0 {
        let resize = word_size_program(version, current, word_size);
        let go = dma_go(version) + seq![Instr::Join];
        let finish = spec_finish_dma(version);

        let start_write = seq![
            modify(Register::Cr1, Patch { spe: Some(false), ..Patch::empty() }),
            Instr::Do(
                Op::StartTxDma {
                    to: spec_tx_register(version),
                    source: TxSource::Buffer,
                    count: count as usize,
                },
            ),
        ];
        lemma_program_fits_concat(version, resize, start_write);
        lemma_program_fits_concat(version, resize + start_write, dma_go(version));
        lemma_program_fits_concat(
            version,
            resize + start_write + dma_go(version),
            seq![Instr::Join],
        );
        lemma_program_fits_concat(
            version,
            resize + start_write + dma_go(version) + seq![Instr::Join],
            finish,
        );

        let disable = seq![modify(Register::Cr1, Patch { spe: Some(false), ..Patch::empty() })];
        let drain = if version.spec_is_gen3() {
            Seq::<Instr>::empty()
        } else {
            seq![Instr::Drain { from: spec_rx_register(version) }]
        };
        let start = seq![
            spec_set_rxdmaen(version, true),
            Instr::Do(Op::StartRxDma { from: spec_rx_register(version), count: count as usize }),
            Instr::Do(
                Op::StartTxDma { to: spec_tx_register(version), source, count: count as usize },
            ),
        ];
        lemma_program_fits_concat(version, resize, disable);
        lemma_program_fits_concat(version, resize + disable, drain);
        lemma_program_fits_concat(version, resize + disable + drain, start);
        lemma_program_fits_concat(version, resize + disable + drain + start, dma_go(version));
        lemma_program_fits_concat(
            version,
            resize + disable + drain + start + dma_go(version),
            seq![Instr::Join],
        );
        lemma_program_fits_concat(
            version,
            resize + disable + drain + start + dma_go(version) + seq![Instr::Join],
            finish,
        );
    }
}

/// The number of instructions that exchange one word.
pub open spec fn exchange_stride(version: Version) -> nat {
    if version.spec_is_gen3() {
        5
    } else {
        4
    }
}

/// A word-by-word transfer is made of one exchange for each position, in
/// the order of the positions and with nothing in between: the exchange of
/// position `index` sends from that position of the transmit buffer, or a
/// zero word past its end, and receives into that position of the receive
/// buffer, or nowhere past its end.
pub proof fn lemma_exchange_program_at(
    version: Version,
    count: nat,
    write_len: nat,
    read_len: nat,
    index: int,
)
    requires
        0 <= index < count,
    ensures
        exchange_program(version, count, write_len, read_len).len() == count * exchange_stride(
            version,
        ),
        exchange_program(version, count, write_len, read_len).subrange(
            index * exchange_stride(version),
            (index + 1) * exchange_stride(version),
        ) == spec_transfer_word(
            version,
            slot(index, write_len as int),
            slot(index, read_len as int),
        ),
    decreases count,
{
    let stride = exchange_stride(version) as int;
    let whole = exchange_program(version, count, write_len, read_len);
    let init = exchange_program(version, (count - 1) as nat, write_len, read_len);
    let last = spec_transfer_word(
        version,
        slot(count - 1, write_len as int),
        slot(count - 1, read_len as int),
    );
    lemma_exchange_program_len(version, (count - 1) as nat, write_len, read_len);
    assert(count * stride == (count - 1) * stride + stride) by (nonlinear_arith);
    assert((index + 1) * stride == index * stride + stride) by (nonlinear_arith);
    if index == count - 1 {
        assert(whole.subrange(index * stride, (index + 1) * stride) =~= last);
    } else {
        lemma_exchange_program_at(version, (count - 1) as nat, write_len, read_len, index);
        assert((index + 1) * stride <= (count - 1) * stride) by (nonlinear_arith)
            requires
                index + 1 <= count - 1,
                stride > 0,
        ;
        assert(0 <= index * stride) by (nonlinear_arith)
            requires
                0 <= index,
                stride > 0,
        ;
        assert(whole.subrange(index * stride, (index + 1) * stride) =~= init.subrange(
            index * stride,
            (index + 1) * stride,
        ));
    }
}

/// The exchange of `count` words takes `count` times the instructions of
/// one exchange.
pub proof fn lemma_exchange_program_len(
    version: Version,
    count: nat,
    write_len: nat,
    read_len: nat,
)
    ensures
        exchange_program(version, count, write_len, read_len).len() == count * exchange_stride(
            version,
        ),
    decreases count,
{
    let stride = exchange_stride(version) as int;
    if count > 0 {
        lemma_exchange_program_len(version, (count - 1) as nat, write_len, read_len);
        assert(count * stride == (count - 1) * stride + stride) by (nonlinear_arith);
    } else {
        assert(0 * stride == 0);
    }
}

/// What a change of the word size does to the peripheral.
///
/// After the program the peripheral is enabled and not suspended, the
/// fields of its generation hold the encoding of the new size, and nothing
/// else has changed.
pub proof fn lemma_word_size_program_effect(
    version: Version,
    current: WordSize,
    new: WordSize,
    regs: Registers,
)
    requires
        new.spec_supported(version),
        current != new,
    ensures
        registers_after(regs, word_size_program(version, current, new)) == (match new.spec_config(
            version,
        ) {
            WordConfig::Dff(dff) => Registers { spe: true, dff, ..regs },
            WordConfig::DsFrxth(ds, frxth) => Registers { spe: true, ds, frxth, ..regs },
            WordConfig::Dsize(dsize) => Registers { spe: true, csusp: false, dsize, ..regs },
        }),
{
    let program = word_size_program(version, current, new);
    match new.spec_config(version) {
        WordConfig::Dff(dff) => {
            lemma_dff_program_effect(regs, dff);
            assert(program =~= dff_program(dff));
        },
        WordConfig::DsFrxth(ds, frxth) => {
            lemma_ds_program_effect(regs, ds, frxth);
            assert(program =~= ds_program(ds, frxth));
        },
        WordConfig::Dsize(dsize) => {
            lemma_dsize_program_effect(regs, dsize);
            assert(program =~= dsize_program(dsize));
        },
    }
}

/// The change of the data frame format on the first generation.
spec fn dff_program(dff: Dff) -> Seq<Instr> {
    let a = modify(Register::Cr1, Patch { spe: Some(false), dff: Some(dff), ..Patch::empty() });
    let b = modify(Register::Cr1, Patch { spe: Some(true), ..Patch::empty() });
    seq![a, b]
}

/// The change of the data size on the second generation.
spec fn ds_program(ds: u8, frxth: Frxth) -> Seq<Instr> {
    let a = modify(Register::Cr1, Patch { spe: Some(false), ..Patch::empty() });
    let b = modify(Register::Cr2, Patch { frxth: Some(frxth), ds: Some(ds), ..Patch::empty() });
    let c = modify(Register::Cr1, Patch { spe: Some(true), ..Patch::empty() });
    seq![a, b, c]
}

/// The change of the data size on the third generation.
spec fn dsize_program(dsize: u8) -> Seq<Instr> {
    let a = modify(Register::Cr1, Patch { csusp: Some(true), ..Patch::empty() });
    let b = Instr::Wait(Condition::TransferComplete);
    let c = modify(Register::Cr1, Patch { spe: Some(false), ..Patch::empty() });
    let d = modify(Register::Cfg1, Patch { dsize: Some(dsize), ..Patch::empty() });
    let e = modify(Register::Cr1, Patch { csusp: Some(false), spe: Some(true), ..Patch::empty() });
    seq![a, b, c, d, e]
}

proof fn lemma_dff_program_effect(regs: Registers, dff: Dff)
    ensures
        registers_after(regs, dff_program(dff)) == (Registers { spe: true, dff, ..regs }),
{
    reveal(Registers::patched);
    let a = modify(Register::Cr1, Patch { spe: Some(false), dff: Some(dff), ..Patch::empty() });
    let b = modify(Register::Cr1, Patch { spe: Some(true), ..Patch::empty() });
    let r1 = a.effect(regs);
    assert(r1 == Registers { spe: false, dff, ..regs });
    let r2 = b.effect(r1);
    assert(r2 == Registers { spe: true, dff, ..regs });
    lemma_registers_after_two(regs, a, b);
    assert(dff_program(dff) =~= seq![a, b]);
}

proof fn lemma_ds_program_effect(regs: Registers, ds: u8, frxth: Frxth)
    ensures
        registers_after(regs, ds_program(ds, frxth)) == (Registers { spe: true, ds, frxth, ..regs }),
{
    reveal(Registers::patched);
    let a = modify(Register::Cr1, Patch { spe: Some(false), ..Patch::empty() });
    let b = modify(Register::Cr2, Patch { frxth: Some(frxth), ds: Some(ds), ..Patch::empty() });
    let c = modify(Register::Cr1, Patch { spe: Some(true), ..Patch::empty() });
    let r1 = a.effect(regs);
    assert(r1 == Registers { spe: false, ..regs });
    let r2 = b.effect(r1);
    assert(r2 == Registers { spe: false, ds, frxth, ..regs });
    let r3 = c.effect(r2);
    assert(r3 == Registers { spe: true, ds, frxth, ..regs });
    lemma_registers_after_two(regs, a, b);
    lemma_registers_after_push(regs, seq![a, b], c);
    assert(seq![a, b].push(c) =~= ds_program(ds, frxth));
}

proof fn lemma_dsize_program_effect(regs: Registers, dsize: u8)
    ensures
        registers_after(regs, dsize_program(dsize)) == (Registers {
            spe: true,
            csusp: false,
            dsize,
            ..regs
        }),
{
    reveal(Registers::patched);
    let a = modify(Register::Cr1, Patch { csusp: Some(true), ..Patch::empty() });
    let b = Instr::Wait(Condition::TransferComplete);
    let c = modify(Register::Cr1, Patch { spe: Some(false), ..Patch::empty() });
    let d = modify(Register::Cfg1, Patch { dsize: Some(dsize), ..Patch::empty() });
    let e = modify(Register::Cr1, Patch { csusp: Some(false), spe: Some(true), ..Patch::empty() });
    let r1 = a.effect(regs);
    assert(r1 == Registers { csusp: true, ..regs });
    let r2 = b.effect(r1);
    assert(r2 == r1);
    let r3 = c.effect(r2);
    assert(r3 == Registers { spe: false, csusp: true, ..regs });
    let r4 = d.effect(r3);
    assert(r4 == Registers { spe: false, csusp: true, dsize, ..regs });
    let r5 = e.effect(r4);
    assert(r5 == Registers { spe: true, csusp: false, dsize, ..regs });
    lemma_registers_after_two(regs, a, b);
    lemma_registers_after_push(regs, seq![a, b], c);
    lemma_registers_after_push(regs, seq![a, b].push(c), d);
    lemma_registers_after_push(regs, seq![a, b].push(c).push(d), e);
    assert(seq![a, b].push(c).push(d).push(e) =~= dsize_program(dsize));
}

/// The effect of a program with one more instruction at its end.
pub proof fn lemma_registers_after_push(regs: Registers, program: Seq<Instr>, instr: Instr)
    ensures
        registers_after(regs, program.push(instr)) == instr.effect(registers_after(regs, program)),
{
    assert(program.push(instr).drop_last() =~= program);
}

/// The effect of a program of two instructions.
pub proof fn lemma_registers_after_two(regs: Registers, first: Instr, second: Instr)
    ensures
        registers_after(regs, seq![first, second]) == second.effect(first.effect(regs)),
{
    lemma_registers_after_push(regs, Seq::<Instr>::empty(), first);
    lemma_registers_after_push(regs, seq![first], second);
    assert(Seq::<Instr>::empty().push(first) =~= seq![first]);
    assert(seq![first].push(second) =~= seq![first, second]);
}

/// The word size is only ever written while the peripheral is disabled:
/// after every access of a word size program that writes one of the size
/// fields, the enable bit is clear.  On the third generation the transfer
/// is suspended as well, and the program has waited for it to complete.
pub proof fn lemma_word_size_written_while_disabled(
    version: Version,
    current: WordSize,
    new: WordSize,
    regs: Registers,
    index: int,
)
    requires
        new.spec_supported(version),
        0 <= index < word_size_program(version, current, new).len(),
        word_size_program(version, current, new)[index].writes_word_size(),
    ensures
        !registers_after(regs, word_size_program(version, current, new).take(index + 1)).spe,
        version.spec_is_gen3() ==> registers_after(
            regs,
            word_size_program(version, current, new).take(index + 1),
        ).csusp && exists|waited: int|
            0 <= waited < index && word_size_program(version, current, new)[waited] == Instr::Wait(
                Condition::TransferComplete,
            ),
{
    reveal(Registers::patched);
    let program = word_size_program(version, current, new);
    lemma_registers_after_take(regs, program, 1);
    lemma_registers_after_take(regs, program, 2);
    if program.len() >= 3 {
        lemma_registers_after_take(regs, program, 3);
    }
    if program.len() >= 5 {
        lemma_registers_after_take(regs, program, 4);
        lemma_registers_after_take(regs, program, 5);
        assert(program[1] == Instr::Wait(Condition::TransferComplete));
    }
}

/// What bringing the peripheral up does to it.
///
/// After the program the peripheral is an enabled master with software
/// slave management and hardware CRC off, it is programmed for 8 bit
/// words, and its configuration reads back as the mode and bit order that
/// were asked for and the frequency that the request results in.
pub proof fn lemma_init_program_effect(
    version: Version,
    kernel_clock: Hertz,
    mosi: bool,
    config: Config,
    regs: Registers,
)
    ensures
        ({
            let after = registers_after(regs, init_program(version, kernel_clock, mosi, config));
            let back = read_config(kernel_clock, after);
            &&& after.spe
            &&& after.master
            &&& after.ssm
            &&& !after.crcen
            &&& !after.ssoe
            &&& back.mode == config.mode
            &&& back.bit_order == config.bit_order
            &&& back.frequency == achieved_frequency(kernel_clock, config.frequency)
            &&& match (WordSize { bits: 8 }).spec_config(version) {
                WordConfig::Dff(dff) => after.dff == dff,
                WordConfig::DsFrxth(ds, frxth) => after.ds == ds && after.frxth == frxth,
                WordConfig::Dsize(dsize) => after.dsize == dsize,
            }
        }),
{
    reveal(Registers::patched);
    let program = init_program(version, kernel_clock, mosi, config);
    lemma_registers_after_take(regs, program, 1);
    lemma_registers_after_take(regs, program, 2);
    lemma_registers_after_take(regs, program, 3);
    if program.len() >= 6 {
        lemma_registers_after_take(regs, program, 4);
        lemma_registers_after_take(regs, program, 5);
        lemma_registers_after_take(regs, program, 6);
    }
}

/// A sequencer neither skips an operation of its program nor makes one up.
///
/// A step moves forward by at most two instructions, and only past
/// instructions that it has dealt with: an operation that it moves past is
/// the action it hands out.  The other way round, an operation that it
/// hands out is the one it has just moved past, or it is the discarding read
/// of the drain it stands at, which the third generation never sees.
pub proof fn lemma_step_follows_program(s: SequencerView, event: Event)
    requires
        s.wf(),
    ensures
        ({
            let (next, action) = s.step(event);
            &&& s.pc <= next.pc <= s.pc + 2
            &&& next.program == s.program
            &&& next.version == s.version
            &&& forall|i: int|
                s.pc <= i < next.pc && #[trigger] s.program[i] is Do ==> action == Action::Do(
                    s.program[i]->Do_0,
                )
            &&& action matches Action::Do(op) ==> ({
                ||| next.pc > s.pc && s.program[next.pc - 1] == Instr::Do(op)
                ||| next.pc == s.pc && !s.version.spec_is_gen3() && (s.program[s.pc as int] matches Instr::Drain {
                    from,
                } && op == Op::Receive { from, slot: None })
            })
        }),
{
}

/// Each word size that a peripheral supports has an encoding of its own:
/// two sizes with the same encoding are the same size.
pub proof fn lemma_word_config_injective(version: Version, a: WordSize, b: WordSize)
    requires
        a.spec_supported(version),
        b.spec_supported(version),
        a.spec_config(version) == b.spec_config(version),
    ensures
        a == b,
{
}

/// Whether no instruction of the program looks at the error flags.
pub open spec fn error_blind(program: Seq<Instr>) -> bool {
    forall|i: int| 0 <= i < program.len() ==> !((#[trigger] program[i]) is Poll)
}

/// A program that does not look at the error flags cannot fail: whatever
/// the hardware reports, no step of the sequencer ends it with an error.
pub proof fn lemma_error_blind_program_cannot_fail(s: SequencerView, event: Event)
    requires
        s.wf(),
        error_blind(s.program),
        !(s.stage matches Stage::Finished(Err(_))),
    ensures
        !(s.step(event).0.stage matches Stage::Finished(Err(_))),
        !(s.step(event).1 matches Action::Finished(Err(_))),
        error_blind(s.step(event).0.program),
        s.step(event).0.wf(),
{
    if s.pc < s.program.len() {
        assert(!(s.program[s.pc as int] is Poll));
    }
}

/// Two programs that do not look at the error flags make one that does
/// not.
pub proof fn lemma_error_blind_concat(first: Seq<Instr>, second: Seq<Instr>)
    requires
        error_blind(first),
        error_blind(second),
    ensures
        error_blind(first + second),
{
    assert forall|i: int| 0 <= i < (first + second).len() implies !((#[trigger] (first
        + second)[i]) is Poll) by {
        if i < first.len() {
            assert((first + second)[i] == first[i]);
        } else {
            assert((first + second)[i] == second[i - first.len()]);
        }
    }
}

/// No DMA transfer looks at the error flags: on this path the driver
/// reports no error, whatever the peripheral has seen.
pub proof fn lemma_dma_programs_error_blind(
    version: Version,
    current: WordSize,
    word_size: WordSize,
    count: nat,
    source: TxSource,
)
    ensures
        error_blind(write_program(version, current, word_size, count)),
        error_blind(transfer_program(version, current, word_size, count, source)),
{
    if count > 0 {
        let completion = dma_completion(version);
        assert(error_blind(dma_go(version)));
        assert(error_blind(spec_finish_dma(version)));
        lemma_error_blind_concat(dma_go(version), seq![Instr::Join]);
        lemma_error_blind_concat(dma_go(version) + seq![Instr::Join], spec_finish_dma(version));
        assert(error_blind(word_size_program(version, current, word_size)));

        let one = dma_preparation(version, current, word_size, false);
        let one_starts = dma_starts(version, count, None);
        assert(error_blind(one));
        assert(error_blind(one_starts));
        lemma_error_blind_concat(one, one_starts);
        lemma_error_blind_concat(one + one_starts, completion);
        lemma_dma_program_parts(version, current, word_size, count, None);

        let both = dma_preparation(version, current, word_size, true);
        let both_starts = dma_starts(version, count, Some(source));
        assert(error_blind(both));
        assert(error_blind(both_starts));
        lemma_error_blind_concat(both, both_starts);
        lemma_error_blind_concat(both + both_starts, completion);
        lemma_dma_program_parts(version, current, word_size, count, Some(source));
    }
}

/// The third generation is never drained.  Whatever its status register
/// holds, a drain ends with the first sample, and no word is read from the
/// receive data register on its account: the sequencer goes straight on to
/// the next instruction.
pub proof fn lemma_third_generation_is_never_drained(s: SequencerView, sr: Status)
    requires
        s.wf(),
        s.version.spec_is_gen3(),
        s.stage is Polling,
        s.program[s.pc as int] is Drain,
    ensures
        !spec_flush_rx_fifo(s.version, sr),
        s.step(Event::Status(sr)) == s.advance().fetch(),
        s.step(Event::Status(sr)).0.pc > s.pc,
{
}

/// A request above the input clock is refused: it is not reachable, and so
/// it meets the `requires` of no constructor and of no reconfiguration.  No
/// driver is built with it and no register is written for it; in
/// particular it is never met by quietly choosing the fastest prescaler.
pub proof fn lemma_over_request_is_refused(kernel_clock: Hertz, freq: Hertz)
    requires
        freq.0 > kernel_clock.0,
    ensures
        !spec_frequency_reachable(kernel_clock, freq),
{
}

/// A DMA transfer between buffers of different lengths is refused: it
/// meets the `requires` of no transfer, whatever the driver and the word
/// size, so that no program is made for it and nothing is cut off or
/// filled up.
pub proof fn lemma_mismatched_transfer_is_refused(
    spi: SpiView,
    word_size: WordSize,
    read_len: nat,
    write_len: nat,
)
    requires
        read_len != write_len,
    ensures
        !transfer_admitted(spi, word_size, read_len, write_len),
{
}

} // verus!
