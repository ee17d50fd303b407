# rust-languagetool

Download-on-demand [LanguageTool](https://languagetool.org/) grammar checking for offline Rust
desktop apps, with its decisions verified by [Verus](https://github.com/verus-lang/verus).

LanguageTool is never bundled in an installer. When the user enables grammar checking, the official
distribution is downloaded (with a Java runtime if no suitable one is on the system) into the local
application data directory, runs as a supervised HTTP server on the loopback interface, and is
asked over HTTP to check texts.

## Layout

- `src/` is the library. It does no I/O. Work that takes several steps is a machine: it says what
  is to be done next and is told what came of it.
  - `engine` ties everything together; `state` and `error` are what an app sees.
  - `provision` and `resolve` install LanguageTool and choose a Java runtime, in terms of the work
    that `task` lists; `unzip` unpacks an archive; `java` reads what `java -version` prints;
    `digest` checks downloads; `layout` says where files lie; `config` holds the settings.
  - `lifecycle` launches, awaits and stops the server.
  - `client` asks for checks and converts the matches.
  - `text` has what the others need of strings and numerals.
  - `laws` states what holds of whole runs, such as that nothing unverified is ever installed.
- `tests/` runs the library on concrete values.
- `app/` is the asynchronous engine around it, with the files, processes and requests.

## What is trusted

Five calls are believed, not proved: `String::from_utf8_lossy`, `PathBuf::clone`,
`sha2::Sha256::digest`, `hex::encode` and `dirs::data_local_dir`. A doc comment at each of them says
what is claimed of it.

## State machine

```
NotInstalled -> Downloading{..} -> Installing -> Stopped
                                                    |
                                                 start()
                                                    |
                                                Starting -> Ready
                                                              |
                                                            stop()
                                                              |
                                                           Stopped
```

Any step can lead to `Error { message }`.
