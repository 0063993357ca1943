# eisen

The verified core of the Eisen boot chain and kernel.

`src/` is a Verus library. It holds the logic of the boot chain with its contracts:

- `header`, `stub`, `bootinfo`, `legacy_bootinfo`: the 512-byte kernel info block in its
  three layouts — field access, and the checks (magic numbers, signature, Eisen UUID,
  CRC-32) that decide whether a kernel image is accepted.
- `report`, `text`: the version line, build date, size and UUID as the loaders print them.
- `elf`, `boot_strategy`: which ELF kernels are accepted and how their segments are placed.
- `paging`: the identity map handed to the firmware.
- `graphics`, `sysinfo`: the choice of a video mode and what the kernel is told about it.
- `pic`, `idt`, `ports`, `debug`: the bytes written to the interrupt controllers, the
  interrupt table options, the debug console.
- `font`, `psf2`: PSF2 console fonts.
- `allocator`, `kdata`, `entry`, `config`: the heap, the argument area, the boot
  configuration.
- `bytes`, `integrity`: little-endian field reads, CRC-32 and UUID comparison.

`app/` is the firmware and hardware glue around it (UEFI protocols, port I/O, descriptor
tables), plus a host-side tool that prints the info block of a kernel image.
`tests/` exercises the library on concrete images.
