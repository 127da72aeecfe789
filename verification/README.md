# xenctrl

Control of Xen guests: domain control, guest contexts, page permissions and the
event monitor, through libxenctrl.

`src/` is the verified library. It decides and makes no call itself: every
method of `XenControl` starts an `Operation`, which says which call into
libxenctrl comes next, takes the reply, and in the end gives the result.

- `control`: the control interface
- `operation`: the dialogue of an operation with libxenctrl
- `ring`: the event ring that is shared with the hypervisor
- `context`: the records of a saved guest context
- `event`: guest events
- `access`: page permissions
- `laws`: what holds of all operations, and of the ring that they work on

`app/` runs the operations: it loads libxenctrl, makes the calls, and offers the
same methods with their final results. It needs Xen's headers to build.
