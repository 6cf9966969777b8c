# stm32f3xx_hal (verified core)

Register-level logic of the STM32F303 DAC and flash controller, verified with Verus.

- `src/bits.rs`: bit fields of a 32-bit register word.
- `src/dac.rs`: the control-register words written by each DAC configuration
  step, the ordered RCC writes that clock and reset the converter, a register
  image of the converter (`Dac`), and the laws these words obey (read-back,
  frame, idempotence, independence of the two channels).
- `src/flash.rs`: the key sequence that unlocks the flash control register and
  the page-erase and page-programming sequences as state machines that own the
  `FLASH` peripheral of the `stm32f3` device crate while they run, with laws on
  single steps and on whole runs.
- `app/`: the drivers on the real peripherals (`stm32f3` register access,
  `cortex_m::asm::nop`), which perform the accesses the library computes.
