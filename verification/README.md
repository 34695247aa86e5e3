# nezumi

Captures a camera through Media Foundation and appends the HEVC frames to `output.h265`.

`src/` is a Verus library. It holds the decisions of the pipeline as step functions: given the call
that is pending and the reply to it, they say which call comes next or what the result is. The
contracts fix each step, and public proof functions state what holds of whole runs: which failure is
returned, that a lock that succeeded is undone and a list that was handed over is freed before there
is a result, that the parts of a producer were made for each other, that one thread reads at a time,
that packets go out once and in order, that dropping a producer ends reading, and that what is
written whole is the payloads of the packets that were read. Where a write fails, the file can end
in the beginning of the payload that was being written.

| Module | What it decides |
| --- | --- |
| `machine` | runs of step functions |
| `com`, `media`, `error`, `payload` | handles, tracks and packets, failures, bytes |
| `graphics` | the Direct3D device and the device manager |
| `devices`, `reader` | which camera is taken and how its source reader is set up |
| `sample` | how a sample becomes a packet |
| `reading`, `timestamps` | the loops that read and send |
| `worker` | when a read thread is started and waited for |
| `windows_mf`, `unsupported` | the producer, with and without Media Foundation |
| `driver` | the router and the driver |
| `pipeline` | what holds of the sequences taken together |

`app/` is the program around it. It makes the calls and hands the replies back.
