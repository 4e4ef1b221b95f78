# artiq_firmware

Verified decisions of the firmware of a device in a DRTIO network: how the
runtime starts as a master, how a satellite serves its auxiliary channel and
follows its uplink, and how a satellite runs kernels of its own.

`src/` touches no board. Where a decision needs something of the board, it is
returned as a value (an operation, a task, an action), and what came of it is
passed back in.

| module | what it decides |
| --- | --- |
| `drtioaux` | sizes, errors and piece marks of the auxiliary channel |
| `gateware` | which cores a board has |
| `routing` | the link to take towards a destination |
| `runtime::master` | how the master starts |
| `runtime::satman::board_steps` | what reaches every repeater, and in which order |
| `runtime::satman::exchange` | how a packet from upstream is served, step by step |
| `runtime::satman::moninj` | how the registers of monitoring and injection are written |
| `runtime::satman::uplink` | what is done as the uplink comes and goes |
| `satman::sliceable` | cutting large data into packets |
| `satman::transaction` | the life of a transaction |
| `satman::inbox` | packets that have arrived |
| `satman::aux`, `satman::aux_laws` | the manager of the auxiliary channel, and what holds of it over several calls |
| `satman::kernel`, `satman::log_lines` | sessions with the kernel CPU |
| `satman::kernel_cpu`, `satman::kernel_proto` | control of the kernel CPU, and its messages |

`app/` performs what the library decides on anything that implements the traits
of `app/board.rs`.
