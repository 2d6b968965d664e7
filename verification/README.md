# fluxer_desktop_dev

The desktop development commands of Fluxer: install, build, type-check, smoke-test, package and run
the desktop client, and restart the canary client on a macOS host.

The library in `src/` decides; it is written in Verus, and every decision in it is proved against
its contract. The crate in `app/` is ordinary Rust: it performs what the library decides on.

## Workflows as functions of their replies

A workflow asks the outside world to do something (run a command, look at a path, fetch a URL) and
goes on from the reply. In the library a workflow is a function of the replies to its earlier
questions:

```text
workflow(inputs, log, at) -> Pending(effect) | Failed(error) | Ready { value, next }
```

The driver in `app/driver.rs` starts with an empty log. As long as the workflow is pending it
performs the effect, appends the reply and calls the workflow again. Nothing is remembered between
the calls but the log, so that a contract states a workflow completely: which effect comes next on
which replies, and how it ends. Theorems named `law_*` relate workflows: what is left alone, what
comes before what, what success means, and that a workflow which has ended stays at its end.

## Layout

| Module | Content |
| --- | --- |
| `replay` | effects, replies, progress |
| `text` | trimming, lines, joining, decimals, lossy decoding |
| `paths` | where the desktop package and its development Electron lie |
| `workspace` | the checkout and the environment that packages are installed in |
| `error` | the errors, with their messages and causes |
| `app_url` | normal form of the app URL, and which one the canary client opens |
| `electron` | the command line that starts Electron |
| `commands` | the toolchain commands |
| `bundle` | the development `Electron.app`: validity and installation |
| `plist` | its property list and its signature |
| `canary` | stopping running canary clients |
| `desktop` | the workflows |

Two calls are trusted, not proved: `url::Url::parse` in `app_url`, and `String::from_utf8_lossy` in
`text`. The doc comments of the functions that make them say what is taken from them.
