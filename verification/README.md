# signal_analyser

Verified core of a mixed signal analyser for the STM32F401RE (Nucleo-64).

`src/` is the library, proved with Verus:

- `health_status` — self-test verdicts and the report line of each;
- `health` — clock, stack canary, RAM and UART judgements, and the order of the boot checks;
- `boot_image` — the bootloader's check of the application's stack pointer and reset vector;
- `mpu` — the MPU region plan and the exact register writes that program it;
- `mpu_state` — a model of the MPU's registers and access checks, with what the set-up leaves it in;
- `analog` — averaging of the interleaved PA0/PA1 ADC buffer into millivolts;
- `digital` — the PWM test signal's frequency and per-channel duty cycles;
- `board_report` — the host's reading of the board's report over RTT.

`app/` holds the hardware edges: volatile register and memory access, the
Embassy tasks, the bootloader's jump and the host's RTT polling loop. Each of
them hands plain values to the library and acts on what it returns.

`tests/` runs the library on concrete values.
