# credit

Verified rules for credit lines: fixed-point interest arithmetic, interest accrual, the
mapping from risk scores to rates, and the conditions under which the admin may change a
line's terms.

- `src/rounding.rs`: division that truncates toward zero, and its laws.
- `src/math_utils.rs`: scaling, basis-point shares and pro-rated interest.
- `src/accrual.rs`: accrual of interest on a credit line.
- `src/risk.rs`: rates from scores, updates of risk parameters, rate-change guardrails.
- `src/types.rs`: the records and the errors.
- `app/`: the Soroban side. It reads the clock, storage and authorization, calls the
  library, and stores and publishes what the library decides.

The proof functions whose names begin with `law_` state what holds across calls. The
functions whose names begin with `try_` accept every input and report overflow as an
error; their counterparts require that the result fits.
