# ph-esp32-mac

A driver for the ESP32 Ethernet MAC (EMAC) with the LAN8720A PHY, whose core
is verified with Verus.

## Layout

- `src/` — the verified core. It decides and computes; it never touches the
  hardware.
  - `descriptor/`, `ring.rs`, `dma.rs`: the DMA descriptor encodings, the
    descriptor rings and the DMA engine that moves frames between caller
    buffers and the ring buffers. `transmit` and `receive` are specified
    byte for byte over the ring contents.
  - `emac.rs`, `mac_regs.rs`, `regs/`: the driver state machine and the
    register words it programs (MAC configuration, perfect and hash address
    filters, VLAN filter, flow control, DMA modes and interrupt enables).
  - `interrupt.rs`, `asynch.rs`: decoding of the DMA status word and the
    wake-up decisions of the asynchronous API.
  - `mdio.rs`, `phy/`: the MII management word, the MDIO bus trait with a
    record of its transfers, the IEEE 802.3 register procedures and the
    LAN8720A driver, whose contracts say which transfers each operation
    makes.
  - `config.rs`, `boards/`, `clock.rs`, `gpio.rs`, `reset.rs`, `bringup.rs`:
    configuration, the WT32-ETH01 board, clock and pin routing words, the
    reset state machine and the bring-up helpers.
- `app/` — the hardware layer in ordinary Rust: volatile register access,
  pin routing, clocks and reset, the MDIO controller, interrupts and
  wakers, and the smoltcp and embassy-net integrations.
- `tests/` — tests of the core.
