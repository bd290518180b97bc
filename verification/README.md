# gke-pullup

Upgrades a GKE cluster, its master and its node pools, to the newest
Kubernetes version that its release channel offers, or to a version or
channel that the user names.

- `src/` is the verified library: the flags (`action`), release channels
  (`channel`), the server configuration (`config`), clusters (`cluster`),
  targets and the versions they resolve to (`target`), resource names and the
  plan of a pull-up (`client`), the course of a pull-up (`pull_up`), the
  default project (`project`), the properties that span several of these
  (`laws`), and white space and string comparison (`text`).
- `app/` is the command: argument parsing, the calls to the GKE API, printing
  and waiting.
- `tests/` runs the library on concrete values.
