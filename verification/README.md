# supergfxctl

Graphics mode switching for hybrid-GPU laptops: the daemon `supergfxd` moves
the machine between Hybrid, Integrated, VFIO, ASUS eGPU and ASUS MUX modes,
and `supergfxctl` asks it to.

The decisions are a library verified with Verus (`src/`): which user action a
mode change needs, the ordered action lists for booting and switching and the
rules they obey, what each action takes, how the dGPU is found among the PCI
devices, the ASUS firmware switches and the boot-time safety check, the
configuration and its earlier formats, the kernel command line, and what the
D-Bus interface and the command-line client answer. Each function states its
result over a mathematical model; the `lemma_*` proof functions state the
properties that span several functions.

`app/` holds what Verus does not see: reading and writing sysfs and
configuration files, running `systemctl`, `modprobe` and `lspci`, the udev
scan, logind, the D-Bus server and client, and the two programs (the one
binary runs as the daemon when started as `supergfxd`).

`tests/` exercises the library on concrete values.
