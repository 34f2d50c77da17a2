# buildit

Remote container builds on a Kubernetes cluster, from a machine that cannot build the image
itself. A build runs in one unprivileged pod that is deleted when it is over, or as a job that
outlives the connection.

The library under `src/` holds everything that is decided, computed or laid out, with contracts
that Verus proves:

- `backend`, `builder`, `builder_laws`: the three image builders, their command lines, their pods
  and jobs, and what holds of all of them.
- `manifest`, `json`: the documents that the cluster is given.
- `shell`, `text`, `numeral`: quoting for the shell and how the shell reads it back, text, numbers.
- `auth`, `oci`: credentials, image references, the image that carries a build context.
- `context`, `schedule`, `args`, `build`, `pod`, `job`: what is sent to the builder, which nodes are
  preferred, what is asked for, and how a build, a pod and a job go from step to step.

What `src/` calls of other crates stands behind functions marked `external_body`; the comment above
each says what is taken for granted.

The program under `app/` reads files, talks to the cluster and to the registry, and leaves the
decisions to the library.
