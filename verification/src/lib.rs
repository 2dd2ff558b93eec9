//! A verified driver core for the SSD1315 monochrome display controller
//! (128x64, one bit per pixel).
//!
//! The crate translates typed register writes and a logical pixel
//! framebuffer into the exact byte sequences the controller's register
//! interface requires, and drives the page/column addressing protocol that
//! transfers the buffer without corrupting unrelated display memory. All
//! transmissions go through the [`transport::DisplayTransport`] capability;
//! adapters over a concrete two-wire or four-wire bus are built from the
//! constructors in [`interface`] and live outside the verified core.

use vstd::prelude::*;

pub mod command;
pub mod config;
pub mod draw_buffer;
pub mod interface;
pub mod transport;

use crate::command::cursor_transmissions;
use crate::command::init_transmissions;
use crate::command::oled_init;
use crate::command::oled_set_cursor;
use crate::config::Ssd1315DisplayConfig;
use crate::draw_buffer::apply_pixel;
use crate::draw_buffer::zero_grid;
use crate::draw_buffer::FrameBuffer;
use crate::draw_buffer::PixelOutOfRange;
use crate::transport::DisplayTransport;
use crate::transport::Transmission;
use crate::transport::TransportError;

verus! {

/// The four transmissions that transfer one page: the three cursor commands
/// for `(page, column 0)`, then the page's bytes as one data-phase
/// transmission.
pub open spec fn page_transfer_transmissions(page: u8, row: Seq<u8>) -> Seq<Transmission> {
    cursor_transmissions(page, 0).push(Transmission::Data(row))
}

/// The transmissions that transfer the first `n` pages of a grid, in page
/// order.
pub open spec fn flush_transmissions_up_to(grid: Seq<Seq<u8>>, n: int) -> Seq<Transmission>
    decreases n,
{
    if n <= 0 {
        Seq::empty()
    } else {
        flush_transmissions_up_to(grid, n - 1) + page_transfer_transmissions(
            (n - 1) as u8,
            grid[n - 1],
        )
    }
}

/// The full flush protocol for a grid: pages 0 through 7 in ascending
/// order, four transmissions per page, 32 transmissions in all.
pub open spec fn flush_transmissions(grid: Seq<Seq<u8>>) -> Seq<Transmission> {
    flush_transmissions_up_to(grid, 8)
}

/// Transferring `n` pages takes exactly `4 * n` transmissions.
pub proof fn lemma_flush_up_to_len(grid: Seq<Seq<u8>>, n: int)
    requires
        0 <= n,
    ensures
        flush_transmissions_up_to(grid, n).len() == 4 * n,
    decreases n,
{
    if n > 0 {
        lemma_flush_up_to_len(grid, n - 1);
    }
}

/// Cutting the flush protocol inside page `m` leaves the complete transfers
/// of the pages before `m`, then the first `j` transmissions of page `m`'s
/// own transfer: a failure during one page leaves nothing of the pages
/// after it.
pub proof fn lemma_flush_take(grid: Seq<Seq<u8>>, m: int, n: int, j: int)
    requires
        0 <= m < n,
        0 <= j <= 4,
    ensures
        flush_transmissions_up_to(grid, n).take(4 * m + j) == flush_transmissions_up_to(grid, m)
            + page_transfer_transmissions(m as u8, grid[m]).take(j),
    decreases n,
{
    lemma_flush_up_to_len(grid, m);
    if n == m + 1 {
        assert(flush_transmissions_up_to(grid, n).take(4 * m + j) =~= flush_transmissions_up_to(
            grid,
            m,
        ) + page_transfer_transmissions(m as u8, grid[m]).take(j));
    } else {
        lemma_flush_take(grid, m, n - 1, j);
        lemma_flush_up_to_len(grid, n - 1);
        assert(flush_transmissions_up_to(grid, n).take(4 * m + j)
            =~= flush_transmissions_up_to(grid, n - 1).take(4 * m + j));
    }
}

/// The flush protocol for any grid is 32 transmissions, and page `p`'s
/// four stand at positions `4 * p` through `4 * p + 3`: the page-select
/// command `0xb0 | p`, the two column-select commands `0x00` and `0x10`
/// (column zero's low and high nibble), then the page's bytes as one
/// data-phase transmission.
pub proof fn lemma_flush_transmission_structure(grid: Seq<Seq<u8>>, p: int)
    requires
        0 <= p < 8,
    ensures
        flush_transmissions(grid).len() == 32,
        flush_transmissions(grid)[4 * p] == Transmission::Commands(seq![0xb0u8 | (p as u8)]),
        flush_transmissions(grid)[4 * p + 1] == Transmission::Commands(seq![0x00u8]),
        flush_transmissions(grid)[4 * p + 2] == Transmission::Commands(seq![0x10u8]),
        flush_transmissions(grid)[4 * p + 3] == Transmission::Data(grid[p]),
{
    lemma_flush_up_to_len(grid, 8);
    lemma_flush_up_to_len(grid, p);
    lemma_flush_take(grid, p, 8, 4);
    let page_part = page_transfer_transmissions(p as u8, grid[p]);
    let full = flush_transmissions(grid);
    assert(page_part.take(4) =~= page_part);
    assert(full.take(4 * p + 4) == flush_transmissions_up_to(grid, p) + page_part);
    assert(full[4 * p] == full.take(4 * p + 4)[4 * p] && full.take(4 * p + 4)[4 * p]
        == page_part[0]);
    assert(full[4 * p + 1] == full.take(4 * p + 4)[4 * p + 1] && full.take(4 * p + 4)[4 * p + 1]
        == page_part[1]);
    assert(full[4 * p + 2] == full.take(4 * p + 4)[4 * p + 2] && full.take(4 * p + 4)[4 * p + 2]
        == page_part[2]);
    assert(full[4 * p + 3] == full.take(4 * p + 4)[4 * p + 3] && full.take(4 * p + 4)[4 * p + 3]
        == page_part[3]);
    assert((0u8 & 0x0fu8) == 0u8) by (bit_vector);
    assert((0x10u8 | ((0u8 >> 4u8) & 0x0fu8)) == 0x10u8) by (bit_vector);
}

/// Streams a framebuffer to the controller: for each page in ascending
/// order, re-points the write cursor at the page's first column, then sends
/// the page's 128 bytes as one data-phase transmission. A transport failure
/// aborts the remaining pages at once.
fn send_frame<DI: DisplayTransport>(ins: &mut DI, fb: &FrameBuffer) -> (r: Result<
    (),
    TransportError,
>)
    requires
        fb.wf(),
    ensures
        r is Ok ==> final(ins).log() == old(ins).log() + flush_transmissions(fb.grid()),
        r is Err ==> exists|k: int|
            0 <= k < 32 && final(ins).log() == old(ins).log() + flush_transmissions(
                fb.grid(),
            ).take(k),
{
    let ghost grid = fb.grid();
    let mut page: u8 = 0;
    proof {
        fb.lemma_grid_shape();
        assert(ins.log() =~= old(ins).log() + flush_transmissions_up_to(grid, 0));
    }
    while page < 8
        invariant
            fb.wf(),
            grid == fb.grid(),
            page <= 8,
            ins.log() == old(ins).log() + flush_transmissions_up_to(grid, page as int),
        decreases 8 - page,
    {
        let ghost page_start = ins.log();
        match oled_set_cursor(ins, page, 0) {
            Ok(()) => {},
            Err(e) => {
                proof {
                    let k0 = choose|k0: int|
                        0 <= k0 < 3 && ins.log() == page_start + cursor_transmissions(
                            page,
                            0,
                        ).take(k0);
                    lemma_flush_take(grid, page as int, 8, k0);
                    assert(cursor_transmissions(page, 0).take(k0)
                        =~= page_transfer_transmissions(page, grid[page as int]).take(k0));
                    assert(ins.log() == old(ins).log() + flush_transmissions(grid).take(
                        4 * (page as int) + k0,
                    ));
                }
                return Err(e);
            },
        }
        let ghost mid = ins.log();
        let row: &[u8] = fb.page_bytes(page);
        match ins.send_data(row) {
            Ok(()) => {},
            Err(e) => {
                proof {
                    lemma_flush_take(grid, page as int, 8, 3);
                    assert(cursor_transmissions(page, 0) =~= page_transfer_transmissions(
                        page,
                        grid[page as int],
                    ).take(3));
                    assert(ins.log() == old(ins).log() + flush_transmissions(grid).take(
                        4 * (page as int) + 3,
                    ));
                }
                return Err(e);
            },
        }
        proof {
            assert(ins.log() == mid.push(Transmission::Data(grid[page as int])));
            assert(flush_transmissions_up_to(grid, page as int + 1) == flush_transmissions_up_to(
                grid,
                page as int,
            ) + page_transfer_transmissions(page, grid[page as int]));
            assert(ins.log() =~= old(ins).log() + flush_transmissions_up_to(
                grid,
                page as int + 1,
            ));
        }
        page = page + 1;
    }
    Ok(())
}

/// A virtual SSD1315 device: the transport it owns, a local buffer that
/// mirrors the controller's display memory, and a configuration.
pub struct Ssd1315<DI> {
    pub interface: DI,
    pub buffer: FrameBuffer,
    pub config: Ssd1315DisplayConfig,
}

impl<DI: DisplayTransport> Ssd1315<DI> {
    /// Creates a new device over a transport, with an all-clear buffer and
    /// the default configuration.
    pub fn new(interface: DI) -> (d: Ssd1315<DI>)
        ensures
            d.interface == interface,
            d.buffer.wf(),
            d.buffer.grid() == zero_grid(),
            d.config == Ssd1315DisplayConfig::spec_default(),
    {
        Ssd1315 {
            interface,
            buffer: FrameBuffer::new(),
            config: Ssd1315DisplayConfig::default_config(),
        }
    }

    /// Replaces the configuration the next initialization will use. Without
    /// this call the display is initialized with the default configuration.
    pub fn set_custom_config(&mut self, config: Ssd1315DisplayConfig)
        ensures
            final(self).config == config,
            final(self).buffer == old(self).buffer,
            final(self).interface == old(self).interface,
    {
        self.config = config;
    }

    /// Initializes the SSD1315: emits the full fixed-order initialization
    /// sequence for the device's configuration, each step as its own
    /// command-phase transmission. A transport failure aborts the remaining
    /// steps and is surfaced; the history then holds a proper prefix of the
    /// sequence.
    pub fn init_screen(&mut self) -> (r: Result<(), TransportError>)
        ensures
            final(self).buffer == old(self).buffer,
            final(self).config == old(self).config,
            r is Ok ==> final(self).interface.log() == old(self).interface.log()
                + init_transmissions(old(self).config),
            r is Err ==> exists|k: int|
                0 <= k < 15 && final(self).interface.log() == old(self).interface.log()
                    + init_transmissions(old(self).config).take(k),
    {
        let config = self.config;
        oled_init(&mut self.interface, config)
    }

    /// Flushes the buffer so its contents show on the OLED screen: pages 0
    /// through 7 in order, each as a cursor re-assertion followed by the
    /// page's 128 bytes of data. The local buffer is left untouched, so a
    /// caller can keep drawing incrementally; blanking is explicit via
    /// [`Ssd1315::clear_screen`]. A transport failure aborts the remaining
    /// pages and is surfaced; pages already transmitted stay on the
    /// physical display.
    pub fn flush_screen(&mut self) -> (r: Result<(), TransportError>)
        requires
            old(self).buffer.wf(),
        ensures
            final(self).buffer == old(self).buffer,
            final(self).config == old(self).config,
            final(self).buffer.wf(),
            r is Ok ==> final(self).interface.log() == old(self).interface.log()
                + flush_transmissions(old(self).buffer.grid()),
            r is Err ==> exists|k: int|
                0 <= k < 32 && final(self).interface.log() == old(self).interface.log()
                    + flush_transmissions(old(self).buffer.grid()).take(k),
    {
        send_frame(&mut self.interface, &self.buffer)
    }

    /// Runs the flush protocol with an all-zero buffer, blanking the
    /// physical display while leaving the caller's drawn buffer contents
    /// unchanged.
    pub fn clear_screen(&mut self) -> (r: Result<(), TransportError>)
        ensures
            final(self).buffer == old(self).buffer,
            final(self).config == old(self).config,
            r is Ok ==> final(self).interface.log() == old(self).interface.log()
                + flush_transmissions(zero_grid()),
            r is Err ==> exists|k: int|
                0 <= k < 32 && final(self).interface.log() == old(self).interface.log()
                    + flush_transmissions(zero_grid()).take(k),
    {
        let blank = FrameBuffer::new();
        send_frame(&mut self.interface, &blank)
    }
}

impl<DI> Ssd1315<DI> {
    /// Sets (`on` true) or clears (`on` false) the pixel at `(x, y)` in the
    /// local buffer; nothing is transmitted until the next flush. An
    /// out-of-range coordinate comes back as an error and changes nothing.
    pub fn set_pixel(&mut self, x: u8, y: u8, on: bool) -> (r: Result<(), PixelOutOfRange>)
        requires
            old(self).buffer.wf(),
        ensures
            final(self).buffer.wf(),
            final(self).interface == old(self).interface,
            final(self).config == old(self).config,
            x < 128 && y < 64 ==> r is Ok && final(self).buffer.grid() == old(
                self,
            ).buffer.grid().update(
                y as int / 8,
                old(self).buffer.grid()[y as int / 8].update(
                    x as int,
                    apply_pixel(old(self).buffer.grid()[y as int / 8][x as int], y % 8, on),
                ),
            ),
            x < 128 && y < 64 ==> final(self).buffer.spec_pixel(x as int, y as int) == on,
            !(x < 128 && y < 64) ==> r == Err::<(), PixelOutOfRange>(
                (PixelOutOfRange { x: x, y: y }),
            ) && final(self).buffer == old(self).buffer,
    {
        self.buffer.set_pixel(x, y, on)
    }

    /// Atomically overwrites the local buffer with caller-supplied pages of
    /// identical shape; nothing is transmitted until the next flush.
    pub fn replace_from_raw(&mut self, raw: &[[u8; 128]; 8])
        requires
            old(self).buffer.wf(),
        ensures
            final(self).buffer.wf(),
            final(self).interface == old(self).interface,
            final(self).config == old(self).config,
            final(self).buffer.grid() == raw.deep_view(),
    {
        self.buffer.replace_from_raw(raw);
    }
}

/// Raw image sources that can be drawn into a device's buffer wholesale.
pub trait DrawFromRaw {
    /// The page grid this source stands for.
    spec fn raw_grid(&self) -> Seq<Seq<u8>>;

    /// Draws the raw image into the device's buffer, replacing its whole
    /// contents; nothing is transmitted until the next flush.
    fn draw_from_raw<DI>(&self, instance: &mut Ssd1315<DI>)
        requires
            old(instance).buffer.wf(),
        ensures
            final(instance).buffer.wf(),
            final(instance).buffer.grid() == self.raw_grid(),
            final(instance).interface == old(instance).interface,
            final(instance).config == old(instance).config,
    ;
}

impl DrawFromRaw for [[u8; 128]; 8] {
    /// An 8-page array of 128-byte rows stands for itself.
    open spec fn raw_grid(&self) -> Seq<Seq<u8>> {
        self.deep_view()
    }

    fn draw_from_raw<DI>(&self, instance: &mut Ssd1315<DI>) {
        instance.replace_from_raw(self);
    }
}

} // verus!
