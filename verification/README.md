# ethercat_hal

A hardware abstraction layer for EtherCAT terminals and drives, written in
Verus: the process-data layouts, CoE configuration plans, device state
machines and the decisions of the EtherCAT master are verified against their
contracts. The master's thread loop, which applies those decisions on the
bus, is not part of this crate.

Layout:

- `src/` – the verified library.
  - Process data and CoE: `sdo`, `coe`, `pdo_objects`, `bits` (bit fields of
    a process image, through `bitvec`).
  - Terminals and drives: `el1259`, `el2024`, `el2809`, `el3204`, `el4008`,
    `el4732`, `el7031`, `el7031_0030`, `el7041_0052`, `el70x1`, `el7062`
    (with `el7062_pdo`, `el7062_coe`, `el7062_diagnostics`), `el9505`,
    `ep2339_0021`, `minas_a6` and `minas_a6_coe`, the WAGO coupler
    `wago_750_354` and its modules in `wago`, with the stepper controllers'
    enable sequence and mailbox handshake in `wago_stepper`.
  - Helpers: `counter_wrapper`, `signing_converter`, `text`, `velocity_loop`.
  - The master: `ethercat_state`, `controller_logic`, `al_diagnostics`,
    `thread_channel` (requests to the EtherCAT thread and what each call makes
    of the answer), `machine_ident`, `debugging`.
  - The host: `irq` (interrupt affinity from `/proc/interrupts`),
    `interface_discovery` (which network interfaces to offer and probe).
- `tests/` – tests of the library on concrete values.
- `app/` – the unverified side: file and socket I/O, asynchronous SDO
  transfers through `ethercrab`, logging, and the floating-point conversions
  of drive units.
