# madespace_core

Identity and role-based access control for a studio organization: users,
roles and the permission matrix, organization settings, the audit log and
service-account API keys, with the business rules that guard them.

- `src/` is the library, verified with Verus: entities and ids, the rules
  (authorization, matrix locks and cycling, password policy, role guards),
  the default dataset, the decision steps of every use case (sign-in,
  session resolution, password reset and invitation run as state machines
  whose steps are verified), decoding of stored rows, token and password
  hashing. Calls into `std`, `uuid`, `getrandom`, `base64`, `sha2`,
  `argon2` and `time` stand behind small trusted wrappers whose contracts
  name or state what they return.
- `app/` is the host around it: async repository ports and their Postgres
  implementations (`sqlx`), SMTP mail (`lettre`), the system clock, the
  first-boot seed, and the services that run each use case's verified steps
  with the I/O between them, performing each action a step asks for and
  handing its outcome back.
- `tests/` exercises the library on concrete values.
