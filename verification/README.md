# gitcycle

A terminal dashboard of the git repository it runs in and of its GitHub
organisation: the user's review requests, pull requests, notifications and
commits; the repository's summary, dirty files (with their diffs), recent
commits and open pull requests; and the organisation's activity, repositories
and members.

The library under `src/` is verified with Verus. It holds everything the
program decides:

- `text`, `sort`: character-level text operations and a stable sort, each
  with an exact specification;
- `command`, `git`, `github`, `orgs`, `activity`, `args`: the arguments of
  every `git` and `gh` command, what their output means, and the retry
  schedule of `gh`;
- `state`, `panel`, `keys`, `handle`, `loading`, `hints`, `display`: the
  interface as a state machine — the state, what each key does to it and
  which outside work it asks for, how query answers enter it;
- `views`, `screens`: what every panel shows — its title, whether it is
  lit, and its lines of coloured text;
- `laws`: properties that span several functions.

The program under `app/` runs the processes and threads, reads JSON with
serde, and paints the library's panels with ratatui.
