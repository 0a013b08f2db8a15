# mnml-aws

Terminal browsers for AWS services: Amplify, CloudWatch Logs, CodeBuild,
Cognito, ECR, ECS, EventBridge Scheduler, Lambda, RDS, SNS and SQS.

- `src/` is the verified library. Each service has a module with its state
  (`app`), the shape of its replies, its keys and what it draws. The modules
  beside them are shared: texts, numerals, JSON, clocks, sorting, tabs, the
  screen and the `aws` command line. Contracts are stated over views of the
  state; the laws are the public proof functions named `law_*`.
- `app/` runs the browsers: it reads keys, starts `aws`, fetches, copies to the
  clipboard, draws with ratatui and hands what came back to the library.
- `tests/` runs the library on concrete values.

The library never does I/O. A function that needs some returns a value that
says what is wanted, and a second function takes the outcome.
