# zlorb

zlorb watches git repositories, fast-forwards them to their remote branch and builds them
(with bun or cargo) when they change or their build output is missing. zlorbrs is a
second, smaller generation of the same tools.

- `src/` is the verified library: configuration editing (add, remove, list), the
  locations of the configuration files, error and log lines, the choice of build
  strategy, and each update of a repository as a step function from the answer to the
  last piece of outside work to the next piece of work.
- `app/` holds the programs: the command lines, the services and the web server. They
  perform the git, file-system and process work that the library asks for.
- `tests/` runs the library on concrete values.
